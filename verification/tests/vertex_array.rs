use glr::attrib::{FloatBits, Vec3f, VertexPos3};
use glr::gl::{GlCall, GlContext, ARRAY_BUFFER, DYNAMIC_DRAW, OUT_OF_MEMORY};
use glr::vertex::DynamicVertexArray;

fn vertex(x: u32) -> VertexPos3 {
    VertexPos3 {
        pos: Vec3f { x: FloatBits(x), y: FloatBits(0), z: FloatBits(0) },
    }
}

fn upload_calls(gl: &GlContext) -> (usize, usize) {
    let mut reallocs = 0;
    let mut subdatas = 0;
    for c in gl.log.iter() {
        match c {
            GlCall::BufferData(_, _, _) => reallocs += 1,
            GlCall::BufferSubData(_, _, _) => subdatas += 1,
            _ => {},
        }
    }
    (reallocs, subdatas)
}

#[test]
fn first_bind_uploads_exactly_all_records() {
    let mut gl = GlContext::new();
    let mut v = DynamicVertexArray::from_data(&mut gl, vec![vertex(1), vertex(2), vertex(3)])
        .unwrap();
    v.bind_buffer(&mut gl);
    // Exactly len(S) records: 3 records of 12 bytes each.
    assert!(gl.log.contains(&GlCall::BufferData(ARRAY_BUFFER, 36, DYNAMIC_DRAW)));
    assert_eq!(upload_calls(&gl), (1, 0));
}

#[test]
fn shrinking_uses_subrange_update_growing_reallocates() {
    let mut gl = GlContext::new();
    let mut v = DynamicVertexArray::from_data(&mut gl, vec![vertex(1), vertex(2), vertex(3)])
        .unwrap();
    v.bind_buffer(&mut gl);
    assert_eq!(upload_calls(&gl), (1, 0));

    // Same-or-smaller contents: a sub-range update only, no reallocation.
    v.set(vec![vertex(4), vertex(5)]);
    v.bind_buffer(&mut gl);
    assert!(gl.log.contains(&GlCall::BufferSubData(ARRAY_BUFFER, 0, 24)));
    assert_eq!(upload_calls(&gl), (1, 1));

    // Growth past the last upload: a full reallocation.
    v.set(vec![vertex(6); 5]);
    v.bind_buffer(&mut gl);
    assert!(gl.log.contains(&GlCall::BufferData(ARRAY_BUFFER, 60, DYNAMIC_DRAW)));
    assert_eq!(upload_calls(&gl), (2, 1));
}

#[test]
fn clean_bind_only_binds_the_buffer() {
    let mut gl = GlContext::new();
    let mut v = DynamicVertexArray::from_data(&mut gl, vec![vertex(1)]).unwrap();
    v.bind_buffer(&mut gl);
    let uploads_before = upload_calls(&gl);
    v.bind_buffer(&mut gl);
    assert_eq!(upload_calls(&gl), uploads_before);
    assert_eq!(*gl.log.last().unwrap(), GlCall::BindBuffer(ARRAY_BUFFER, v.buf_id()));
}

#[test]
fn empty_array_bind_is_a_no_op() {
    let mut gl = GlContext::new();
    let mut v: DynamicVertexArray<VertexPos3> = DynamicVertexArray::new(&mut gl).unwrap();
    let log_len = gl.log.len();
    v.bind_buffer(&mut gl);
    assert_eq!(gl.log.len(), log_len);
    assert!(v.dirty());
}

#[test]
fn indexed_write_roundtrip_and_dirty_until_flush() {
    let mut gl = GlContext::new();
    let mut v = DynamicVertexArray::from_data(&mut gl, vec![vertex(1), vertex(2)]).unwrap();
    v.bind_buffer(&mut gl);
    assert!(!v.dirty());

    v.set_at(1, vertex(42));
    // Reading the written index returns the written value.
    assert_eq!(v.index(1).pos.x, FloatBits(42));
    // The write made the array dirty, and it stays dirty until the flush.
    assert!(v.dirty());
    assert_eq!(v.index(1).pos.x, FloatBits(42));
    assert!(v.dirty());

    v.bind_buffer(&mut gl);
    assert!(!v.dirty());
    assert_eq!(v.index(1).pos.x, FloatBits(42));

    v.set_at(0, vertex(7));
    assert!(v.dirty());
}

#[test]
fn set_marks_dirty() {
    let mut gl = GlContext::new();
    let mut v = DynamicVertexArray::from_data(&mut gl, vec![vertex(1)]).unwrap();
    v.bind_buffer(&mut gl);
    assert!(!v.dirty());
    v.set(vec![vertex(9)]);
    assert!(v.dirty());
    assert_eq!(v.len(), 1);
    assert_eq!(v.data()[0].pos.x, FloatBits(9));
}

#[test]
fn allocation_failure_is_a_typed_error() {
    let mut gl = GlContext::new();
    gl.alloc_ok = false;
    let r: Result<DynamicVertexArray<VertexPos3>, glr::GLError> =
        DynamicVertexArray::new(&mut gl);
    let e = r.err().unwrap();
    assert_eq!(e.code(), OUT_OF_MEMORY);
}
