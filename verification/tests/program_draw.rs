use glr::attrib::{AttribProviderList, FloatBits, NilVertexAttrib, Vec3f, VertexPos3};
use glr::gl::{Diag, GlCall, GlContext, ObjectKind, ShaderVar, FLOAT, TRIANGLES};
use glr::program::Program;
use glr::uniform::{Rgba, UniformEntry, UniformTable, UniformValue};
use glr::vertex::DynamicVertexArray;

const FLOAT_MAT4: u32 = 0x8B5C;
const FLOAT_VEC4: u32 = 0x8B52;
const FLOAT_VEC3: u32 = 0x8B54;

fn var(name: &str, utype: u32, location: Option<u32>) -> ShaderVar {
    ShaderVar { name: name.to_string(), size: 1, utype, location }
}

#[test]
fn invalid_shader_source_fails_with_typed_error_and_no_program() {
    let mut gl = GlContext::new();
    // A driver that rejects the vertex-stage source.
    gl.vertex_compile_ok = false;
    gl.info_log = "syntax error".to_string();
    gl.active_uniforms = vec![var("mvp", FLOAT_MAT4, Some(0))];
    let r = Program::from_source(&mut gl, "bad source !!", "void main() {}", None);
    // A typed failure, and no program value at all: no catalog can be
    // queried because nothing is returned.
    assert!(r.is_err());
    assert_eq!(gl.diagnostics, vec![Diag::CompileLog("syntax error".to_string())]);
}

#[test]
fn fragment_stage_failure_stops_the_build_and_frees_the_vertex_stage() {
    let mut gl = GlContext::new();
    gl.fragment_compile_ok = false;
    gl.info_log = "bad fragment".to_string();
    let r = Program::from_source(&mut gl, "v", "f", None);
    assert!(r.is_err());
    assert_eq!(gl.diagnostics, vec![Diag::CompileLog("bad fragment".to_string())]);
    // Both transient shaders were deleted: the failed fragment stage and
    // the already-compiled vertex stage.
    let dels = gl
        .log
        .iter()
        .filter(|c| matches!(c, GlCall::Delete(ObjectKind::Shader, _)))
        .count();
    assert_eq!(dels, 2);
    // Linking was never reached.
    assert!(!gl.log.iter().any(|c| matches!(c, GlCall::LinkProgram(_))));
}

#[test]
fn link_failure_reports_log_and_fails() {
    let mut gl = GlContext::new();
    gl.link_ok = false;
    gl.info_log = "link error".to_string();
    let r = Program::from_source(&mut gl, "v", "f", None);
    assert!(r.is_err());
    assert_eq!(gl.diagnostics, vec![Diag::LinkLog("link error".to_string())]);
    // The partial program object was deleted again.
    let deleted = gl.log.iter().any(|c| matches!(c, GlCall::Delete(ObjectKind::Program, _)));
    assert!(deleted);
}

#[test]
fn linking_captures_catalogs_and_skips_unresolved_locations() {
    let mut gl = GlContext::new();
    gl.active_uniforms = vec![
        var("mvp", FLOAT_MAT4, Some(0)),
        var("unused", FLOAT_VEC4, None),
        var("color", FLOAT_VEC4, Some(1)),
    ];
    gl.active_attribs = vec![var("pos", FLOAT_VEC3, Some(0))];
    let p = Program::from_source(&mut gl, "v", "f", None).unwrap();
    assert_eq!(p.uniform_by_name("mvp").unwrap().location(), 0);
    assert_eq!(p.uniform_by_name("color").unwrap().location(), 1);
    // The driver optimized `unused` away: silently skipped, not an error.
    assert!(p.uniform_by_name("unused").is_none());
    assert_eq!(p.attrib_by_name("pos").unwrap().location(), 0);
    assert!(p.attrib_by_name("nope").is_none());
    assert_eq!(p.uniform_count(), 2);
    assert_eq!(p.attrib_count(), 1);
}

#[test]
fn transient_shaders_are_deleted_after_linking() {
    let mut gl = GlContext::new();
    let _p = Program::from_source(&mut gl, "v", "f", Some("g")).unwrap();
    let n = gl
        .log
        .iter()
        .filter(|c| matches!(c, GlCall::Delete(ObjectKind::Shader, _)))
        .count();
    assert_eq!(n, 3);
}

#[test]
fn draw_scenario_one_call_uniforms_set_and_offset_zero() {
    let mut gl = GlContext::new();
    gl.active_uniforms = vec![
        var("mvp", FLOAT_MAT4, Some(0)),
        var("color", FLOAT_VEC4, Some(1)),
    ];
    gl.active_attribs = vec![var("pos", FLOAT_VEC3, Some(4))];
    let p = Program::from_source(&mut gl, "v", "f", None).unwrap();

    let mvp = UniformValue::Mat4([3u32; 16]);
    let color = UniformValue::Color(Rgba::new(1, 2, 3, 4));
    let table = UniformTable {
        entries: vec![
            UniformEntry { name: "mvp".to_string(), value: UniformValue::Mat4([3u32; 16]) },
            UniformEntry { name: "color".to_string(), value: UniformValue::Color(Rgba::new(1, 2, 3, 4)) },
        ],
    };
    let v = VertexPos3 {
        pos: Vec3f { x: FloatBits(10), y: FloatBits(11), z: FloatBits(12) },
    };
    let mut arr = DynamicVertexArray::from_data(&mut gl, vec![v, v, v]).unwrap();

    p.draw(&mut gl, &table, &mut arr, TRIANGLES);

    // Exactly one native draw call, sized to the record count.
    let draws: Vec<&GlCall> = gl
        .log
        .iter()
        .filter(|c| matches!(c, GlCall::DrawArrays(_, _, _)))
        .collect();
    assert_eq!(draws.len(), 1);
    assert_eq!(*draws[0], GlCall::DrawArrays(TRIANGLES, 0, 3));

    // Both uniforms were set at their reflected locations.
    assert!(gl.log.contains(&GlCall::SetUniform { location: 0, value: mvp }));
    assert!(gl.log.contains(&GlCall::SetUniform { location: 1, value: color }));

    // The position attribute is bound at in-record byte offset 0.
    assert!(gl.log.contains(&GlCall::VertexAttribPointer {
        location: 4,
        components: 3,
        scalar: FLOAT,
        normalized: false,
        stride: 12,
        offset: 0,
    }));

    // The enabled slot was released after the draw.
    assert!(gl.log.contains(&GlCall::EnableVertexAttribArray(4)));
    assert_eq!(*gl.log.last().unwrap(), GlCall::DisableVertexAttribArray(4));
}

#[test]
fn draw_with_zero_vertices_is_a_no_op() {
    let mut gl = GlContext::new();
    let p = Program::from_source(&mut gl, "v", "f", None).unwrap();
    let log_len = gl.log.len();
    let mut nil = NilVertexAttrib(0);
    let table = UniformTable { entries: vec![] };
    p.draw(&mut gl, &table, &mut nil, TRIANGLES);
    assert_eq!(gl.log.len(), log_len);
}

#[test]
fn unmatched_uniform_fields_are_never_invoked() {
    let mut gl = GlContext::new();
    gl.active_uniforms = vec![var("mvp", FLOAT_MAT4, Some(0))];
    let p = Program::from_source(&mut gl, "v", "f", None).unwrap();
    let table = UniformTable {
        entries: vec![
            UniformEntry { name: "other".to_string(), value: UniformValue::Float(5) },
            // An array field is recognized for matching only; it matches
            // `arr[0]`, which this program does not declare.
            UniformEntry {
                name: "arr".to_string(),
                value: UniformValue::Array(Box::new(UniformValue::Float(0)), 4),
            },
        ],
    };
    let mut nil = NilVertexAttrib(2);
    p.draw(&mut gl, &table, &mut nil, TRIANGLES);
    let sets = gl.log.iter().filter(|c| matches!(c, GlCall::SetUniform { .. })).count();
    assert_eq!(sets, 0);
}

#[test]
fn post_draw_error_is_reported_not_escalated() {
    let mut gl = GlContext::new();
    let p = Program::from_source(&mut gl, "v", "f", None).unwrap();
    gl.error = 0x0502;
    let mut nil = NilVertexAttrib(3);
    let table = UniformTable { entries: vec![] };
    p.draw(&mut gl, &table, &mut nil, TRIANGLES);
    assert_eq!(gl.diagnostics, vec![Diag::DrawError(0x0502)]);
    assert_eq!(gl.error, 0);
}

#[test]
fn draw_raised_error_is_reported_not_escalated() {
    let mut gl = GlContext::new();
    let p = Program::from_source(&mut gl, "v", "f", None).unwrap();
    // A driver whose draw command itself fails.
    gl.draw_error = 0x0505;
    let mut nil = NilVertexAttrib(3);
    let table = UniformTable { entries: vec![] };
    p.draw(&mut gl, &table, &mut nil, TRIANGLES);
    assert_eq!(gl.diagnostics, vec![Diag::DrawError(0x0505)]);
    assert_eq!(gl.error, 0);
}

#[test]
fn draw_range_flushes_a_dirty_array_and_draws_the_range() {
    let mut gl = GlContext::new();
    gl.active_attribs = vec![var("pos", FLOAT_VEC3, Some(1))];
    let p = Program::from_source(&mut gl, "v", "f", None).unwrap();
    let v = VertexPos3 {
        pos: Vec3f { x: FloatBits(0), y: FloatBits(0), z: FloatBits(0) },
    };
    let mut arr = DynamicVertexArray::from_data(&mut gl, vec![v; 6]).unwrap();
    // The array is still dirty: drawing a sub-range uploads first.
    assert!(arr.dirty());
    let table = UniformTable { entries: vec![] };
    p.draw_range(&mut gl, &table, &mut arr, 2, 5, TRIANGLES);
    assert!(!arr.dirty());
    // All six records were uploaded (6 records of 12 bytes).
    assert!(gl.log.contains(&GlCall::BufferData(glr::gl::ARRAY_BUFFER, 72, glr::gl::DYNAMIC_DRAW)));
    // The pointer carries the range's base offset, the draw its length.
    assert!(gl.log.contains(&GlCall::VertexAttribPointer {
        location: 1,
        components: 3,
        scalar: FLOAT,
        normalized: false,
        stride: 12,
        offset: 24,
    }));
    assert!(gl.log.contains(&GlCall::DrawArrays(TRIANGLES, 0, 3)));
    assert_eq!(*gl.log.last().unwrap(), GlCall::DisableVertexAttribArray(1));
}

#[test]
fn draw_range_of_an_empty_range_is_a_no_op() {
    let mut gl = GlContext::new();
    let p = Program::from_source(&mut gl, "v", "f", None).unwrap();
    let v = VertexPos3 {
        pos: Vec3f { x: FloatBits(0), y: FloatBits(0), z: FloatBits(0) },
    };
    let mut arr = DynamicVertexArray::from_data(&mut gl, vec![v; 4]).unwrap();
    let log_len = gl.log.len();
    let table = UniformTable { entries: vec![] };
    p.draw_range(&mut gl, &table, &mut arr, 2, 2, TRIANGLES);
    assert_eq!(gl.log.len(), log_len);
    assert!(arr.dirty());
}

#[test]
fn sub_range_binds_with_adjusted_base_offset() {
    let mut gl = GlContext::new();
    gl.active_attribs = vec![var("pos", FLOAT_VEC3, Some(2))];
    let p = Program::from_source(&mut gl, "v", "f", None).unwrap();
    let v = VertexPos3 {
        pos: Vec3f { x: FloatBits(0), y: FloatBits(0), z: FloatBits(0) },
    };
    let mut arr = DynamicVertexArray::from_data(&mut gl, vec![v; 6]).unwrap();
    // The sub-range view requires a flushed array.
    arr.bind_buffer(&mut gl);
    let mut sub = arr.sub(2, 5);
    assert_eq!(sub.len(), 3);
    let table = UniformTable { entries: vec![] };
    p.draw(&mut gl, &table, &mut sub, TRIANGLES);
    // Same buffer, adjusted base offset (2 records of 12 bytes), sub-range
    // length only.
    assert!(gl.log.contains(&GlCall::VertexAttribPointer {
        location: 2,
        components: 3,
        scalar: FLOAT,
        normalized: false,
        stride: 12,
        offset: 24,
    }));
    assert!(gl.log.contains(&GlCall::DrawArrays(TRIANGLES, 0, 3)));
}

#[test]
fn paired_sources_draw_the_smaller_vertex_count() {
    let mut gl = GlContext::new();
    let p = Program::from_source(&mut gl, "v", "f", None).unwrap();
    let table = UniformTable { entries: vec![] };
    let mut pair = (NilVertexAttrib(5), NilVertexAttrib(3));
    p.draw(&mut gl, &table, &mut pair, TRIANGLES);
    assert!(gl.log.contains(&GlCall::DrawArrays(TRIANGLES, 0, 3)));
}

#[test]
fn uniform_values_transfer_their_component_counts() {
    assert_eq!(UniformValue::Float(0).components(), 1);
    assert_eq!(UniformValue::Int(0).components(), 1);
    assert_eq!(UniformValue::Vec3([0; 3]).components(), 3);
    assert_eq!(UniformValue::Color(Rgba::new(0, 0, 0, 0)).components(), 4);
    assert_eq!(UniformValue::Mat3([0; 9]).components(), 9);
    assert_eq!(UniformValue::Mat4([0; 16]).components(), 16);
}

#[test]
fn compile_commands_carry_the_stage() {
    let mut gl = GlContext::new();
    let _p = Program::from_source(&mut gl, "v", "f", Some("g")).unwrap();
    let stages: Vec<u32> = gl
        .log
        .iter()
        .filter_map(|c| match c {
            GlCall::CreateShader(stage, _) => Some(*stage),
            _ => None,
        })
        .collect();
    assert_eq!(
        stages,
        vec![glr::gl::VERTEX_SHADER, glr::gl::FRAGMENT_SHADER, glr::gl::GEOMETRY_SHADER]
    );
}

#[test]
fn program_handle_is_exposed_and_deleted_explicitly() {
    let mut gl = GlContext::new();
    let p = Program::from_source(&mut gl, "v", "f", None).unwrap();
    let id = p.id();
    assert!(id != 0);
    p.delete(&mut gl);
    assert_eq!(*gl.log.last().unwrap(), GlCall::Delete(ObjectKind::Program, id));
}
