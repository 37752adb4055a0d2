use glr::gl::{
    check_gl, to_gl_err, GlCall, GlContext, ObjectKind, NO_ERROR, OUT_OF_MEMORY,
    RENDERBUFFER,
};
use glr::resource::{
    try_renderbuffer_storage_multisample, Buffer, Framebuffer, Renderbuffer, Texture,
    VertexArray,
};

const RGBA8: u32 = 0x8058;

#[test]
fn generate_and_delete_each_object_kind() {
    let mut gl = GlContext::new();
    let t = Texture::generate(&mut gl).unwrap();
    let b = Buffer::generate(&mut gl).unwrap();
    let va = VertexArray::generate(&mut gl).unwrap();
    let rb = Renderbuffer::generate(&mut gl).unwrap();
    let fb = Framebuffer::generate(&mut gl).unwrap();
    // Handles are distinct.
    let ids = [t.id(), b.id(), va.id(), rb.id(), fb.id()];
    for i in 0..ids.len() {
        for j in 0..i {
            assert!(ids[i] != ids[j]);
        }
    }
    let tid = t.id();
    t.delete(&mut gl);
    assert_eq!(*gl.log.last().unwrap(), GlCall::Delete(ObjectKind::Texture, tid));
    b.delete(&mut gl);
    va.delete(&mut gl);
    rb.delete(&mut gl);
    fb.delete(&mut gl);
    let dels = gl.log.iter().filter(|c| matches!(c, GlCall::Delete(_, _))).count();
    assert_eq!(dels, 5);
}

#[test]
fn texture_escape_hands_out_the_handle_without_delete() {
    let mut gl = GlContext::new();
    let t = Texture::generate(&mut gl).unwrap();
    let id = t.id();
    let escaped = t.into_id();
    assert_eq!(escaped, id);
    let dels = gl.log.iter().filter(|c| matches!(c, GlCall::Delete(_, _))).count();
    assert_eq!(dels, 0);
}

#[test]
fn allocation_failure_surfaces_the_driver_code() {
    let mut gl = GlContext::new();
    gl.alloc_ok = false;
    let r = Texture::generate(&mut gl);
    assert_eq!(r.err().unwrap(), glr::GLError(OUT_OF_MEMORY));
    // The failure was read back: no error left pending.
    assert_eq!(gl.error, NO_ERROR);
}

#[test]
fn check_gl_reads_and_clears_the_pending_error() {
    let mut gl = GlContext::new();
    assert!(check_gl(&mut gl).is_ok());
    gl.error = 0x0501;
    let e = check_gl(&mut gl).err().unwrap();
    assert_eq!(e.code(), 0x0501);
    assert_eq!(gl.error, NO_ERROR);
    gl.error = 0x0502;
    assert_eq!(to_gl_err(&mut gl), glr::GLError(0x0502));
    assert_eq!(gl.error, NO_ERROR);
}

#[test]
fn msaa_negotiation_settles_on_four_after_two_rejections() {
    let mut gl = GlContext::new();
    // A driver that rejects 16 and 8 samples but accepts 4.
    gl.max_samples = 5;
    let r = try_renderbuffer_storage_multisample(&mut gl, RENDERBUFFER, RGBA8, 64, 64);
    assert_eq!(r, Some(4));
    // Three attempts, each preceded by an error-state purge.
    let expected = vec![
        GlCall::GetError,
        GlCall::RenderbufferStorageMultisample(RENDERBUFFER, 16, RGBA8, 64, 64),
        GlCall::GetError,
        GlCall::GetError,
        GlCall::RenderbufferStorageMultisample(RENDERBUFFER, 8, RGBA8, 64, 64),
        GlCall::GetError,
        GlCall::GetError,
        GlCall::RenderbufferStorageMultisample(RENDERBUFFER, 4, RGBA8, 64, 64),
        GlCall::GetError,
    ];
    assert_eq!(gl.log, expected);
}

#[test]
fn msaa_negotiation_takes_the_first_accepted_count() {
    let mut gl = GlContext::new();
    gl.max_samples = 16;
    let r = try_renderbuffer_storage_multisample(&mut gl, RENDERBUFFER, RGBA8, 8, 8);
    assert_eq!(r, Some(16));
    let attempts = gl
        .log
        .iter()
        .filter(|c| matches!(c, GlCall::RenderbufferStorageMultisample(..)))
        .count();
    assert_eq!(attempts, 1);
}

#[test]
fn msaa_negotiation_total_failure_is_reported() {
    let mut gl = GlContext::new();
    gl.max_samples = 1;
    let r = try_renderbuffer_storage_multisample(&mut gl, RENDERBUFFER, RGBA8, 8, 8);
    assert_eq!(r, None);
    let attempts = gl
        .log
        .iter()
        .filter(|c| matches!(c, GlCall::RenderbufferStorageMultisample(..)))
        .count();
    assert_eq!(attempts, 4);
    assert_eq!(gl.error, NO_ERROR);
}
