use glr::gl::{GlCall, GlContext, DRAW_FRAMEBUFFER, READ_FRAMEBUFFER, RENDERBUFFER};
use glr::guards::{
    AttribBindings, BinderDrawFramebuffer, BinderReadFramebuffer, BinderRenderbuffer,
    EnablerVertexAttribArray, PushViewport,
};
use glr::resource::{Framebuffer, Renderbuffer};

#[test]
fn viewport_guard_restores_previous_rectangle() {
    let mut gl = GlContext::new();
    gl.viewport = (1, 2, 3, 4);
    let pv = PushViewport::push(&mut gl, 10, 20, 30, 40);
    assert_eq!(gl.viewport, (10, 20, 30, 40));
    // Arbitrary churn inside the scope.
    pv.viewport(&mut gl, 7, 7, 7, 7);
    pv.viewport(&mut gl, 9, 9, 9, 9);
    assert_eq!(gl.viewport, (9, 9, 9, 9));
    pv.restore(&mut gl);
    assert_eq!(gl.viewport, (1, 2, 3, 4));
    assert_eq!(*gl.log.last().unwrap(), GlCall::Viewport(1, 2, 3, 4));
}

#[test]
fn viewport_capture_without_change() {
    let mut gl = GlContext::new();
    gl.viewport = (5, 6, 7, 8);
    let pv = PushViewport::new(&gl);
    assert!(gl.log.is_empty());
    gl.set_viewport(0, 0, 100, 100);
    pv.restore(&mut gl);
    assert_eq!(gl.viewport, (5, 6, 7, 8));
}

#[test]
fn draw_framebuffer_binder_restores_captured_binding() {
    let mut gl = GlContext::new();
    gl.draw_framebuffer = 7;
    let fb = Framebuffer::generate(&mut gl).unwrap();
    let b = BinderDrawFramebuffer::new(&gl);
    b.rebind(&mut gl, &fb);
    assert_eq!(gl.draw_framebuffer, fb.id());
    b.restore(&mut gl);
    assert_eq!(gl.draw_framebuffer, 7);
    assert_eq!(*gl.log.last().unwrap(), GlCall::BindFramebuffer(DRAW_FRAMEBUFFER, 7));
}

#[test]
fn bound_framebuffer_binder_restores_default() {
    let mut gl = GlContext::new();
    gl.read_framebuffer = 9;
    let fb = Framebuffer::generate(&mut gl).unwrap();
    let b = BinderReadFramebuffer::bind(&mut gl, &fb);
    assert_eq!(gl.read_framebuffer, fb.id());
    b.restore(&mut gl);
    // Binding at construction captures nothing: restore rebinds the
    // default framebuffer, not the one bound before.
    assert_eq!(gl.read_framebuffer, 0);
}

#[test]
fn read_and_draw_targets_are_independent() {
    let mut gl = GlContext::new();
    gl.draw_framebuffer = 3;
    gl.read_framebuffer = 4;
    let fb = Framebuffer::generate(&mut gl).unwrap();
    let b = BinderDrawFramebuffer::bind(&mut gl, &fb);
    assert_eq!(gl.read_framebuffer, 4);
    b.restore(&mut gl);
    assert_eq!(gl.read_framebuffer, 4);
    assert_eq!(gl.draw_framebuffer, 0);
}

#[test]
fn renderbuffer_binder_unbinds_not_restores() {
    let mut gl = GlContext::new();
    let rb1 = Renderbuffer::generate(&mut gl).unwrap();
    let rb2 = Renderbuffer::generate(&mut gl).unwrap();
    let b1 = BinderRenderbuffer::bind(&mut gl, &rb1);
    assert_eq!(gl.renderbuffer, rb1.id());
    assert_eq!(b1.target(), RENDERBUFFER);
    let b2 = BinderRenderbuffer::bind(&mut gl, &rb2);
    assert_eq!(gl.renderbuffer, rb2.id());
    b2.release(&mut gl);
    // Deliberate asymmetry: release restores to none, not to rb1.
    assert_eq!(gl.renderbuffer, 0);
    b1.release(&mut gl);
    assert_eq!(gl.renderbuffer, 0);
}

#[test]
fn lifo_release_disables_every_slot_exactly_once() {
    let mut gl = GlContext::new();
    let mut token = AttribBindings::new();
    token.push(EnablerVertexAttribArray::enable(&mut gl, 3));
    token.push(EnablerVertexAttribArray::enable(&mut gl, 5));
    token.push(EnablerVertexAttribArray::enable(&mut gl, 8));
    assert_eq!(token.len(), 3);
    token.release(&mut gl);
    let expected = vec![
        GlCall::EnableVertexAttribArray(3),
        GlCall::EnableVertexAttribArray(5),
        GlCall::EnableVertexAttribArray(8),
        GlCall::DisableVertexAttribArray(8),
        GlCall::DisableVertexAttribArray(5),
        GlCall::DisableVertexAttribArray(3),
    ];
    assert_eq!(gl.log, expected);
    // Each enabled slot is disabled exactly once, in reverse order.
    for slot in [3u32, 5, 8] {
        let n = gl
            .log
            .iter()
            .filter(|c| **c == GlCall::DisableVertexAttribArray(slot))
            .count();
        assert_eq!(n, 1);
    }
}

#[test]
fn single_guard_disables_its_own_slot() {
    let mut gl = GlContext::new();
    let e = EnablerVertexAttribArray::enable(&mut gl, 2);
    e.release(&mut gl);
    assert_eq!(
        gl.log,
        vec![
            GlCall::EnableVertexAttribArray(2),
            GlCall::DisableVertexAttribArray(2),
        ]
    );
}

#[test]
fn framebuffer_target_enumerants() {
    let gl = GlContext::new();
    let bd = BinderDrawFramebuffer::new(&gl);
    let br = BinderReadFramebuffer::new(&gl);
    assert_eq!(bd.target(), DRAW_FRAMEBUFFER);
    assert_eq!(br.target(), READ_FRAMEBUFFER);
}
