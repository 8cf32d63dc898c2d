use xr_stereo::create_webgl_context;
use xr_stereo::setup::{
    attribute_commands, link_diagnostic, vertex_stride, Attribute, AttributeCommand, LinkReport,
    SetupDiagnostic, StageReport, COMPONENT_BYTES, VERTEX_COUNT,
};
use xr_stereo::surface::{ContextAttributes, ContextKind, ContextRequest};
use xr_stereo::XrApp;

fn stage(compiled: bool, log: &str) -> StageReport {
    StageReport { compiled, log: String::from(log) }
}

#[test]
fn stereo_context_is_xr_compatible() {
    assert_eq!(
        create_webgl_context(true),
        ContextRequest {
            kind: ContextKind::WebGl2,
            attributes: Some(ContextAttributes { xr_compatible: true }),
        }
    );
}

#[test]
fn plain_context_has_no_attributes() {
    assert_eq!(
        create_webgl_context(false),
        ContextRequest { kind: ContextKind::WebGl2, attributes: None }
    );
}

#[test]
fn app_draws_on_a_stereo_context() {
    assert_eq!(XrApp::new().surface(), create_webgl_context(true));
}

#[test]
fn linked_program_needs_no_diagnostic() {
    let report = LinkReport {
        linked: true,
        log: String::from("ok"),
        vertex: stage(true, ""),
        fragment: stage(true, ""),
    };
    assert_eq!(link_diagnostic(report), None);
}

#[test]
fn failed_link_reports_the_log_of_every_stage() {
    let report = LinkReport {
        linked: false,
        log: String::from("link: undefined varying"),
        vertex: stage(false, "vs: syntax error"),
        fragment: stage(true, ""),
    };
    assert_eq!(
        link_diagnostic(report),
        Some(SetupDiagnostic {
            link_log: String::from("link: undefined varying"),
            vertex: stage(false, "vs: syntax error"),
            fragment: stage(true, ""),
        })
    );
}

#[test]
fn failed_link_of_compiled_stages_is_still_reported() {
    let report = LinkReport {
        linked: false,
        log: String::from("too many uniforms"),
        vertex: stage(true, "v"),
        fragment: stage(true, "f"),
    };
    let diagnostic = link_diagnostic(report).unwrap();
    assert_eq!(diagnostic.link_log, "too many uniforms");
    assert_eq!(diagnostic.vertex, stage(true, "v"));
    assert_eq!(diagnostic.fragment, stage(true, "f"));
}

#[test]
fn vertex_is_six_floats_wide() {
    assert_eq!(COMPONENT_BYTES, 4);
    assert_eq!(VERTEX_COUNT, 3);
    assert_eq!(Attribute::Position.components(), 3);
    assert_eq!(Attribute::Color.components(), 3);
    assert_eq!(vertex_stride(), 24);
    assert_eq!(Attribute::Position.offset(), 0);
    assert_eq!(Attribute::Color.offset(), 12);
}

#[test]
fn attributes_are_enabled_then_pointed() {
    assert_eq!(
        attribute_commands(0, 1),
        vec![
            AttributeCommand::EnableArray { location: 0 },
            AttributeCommand::EnableArray { location: 1 },
            AttributeCommand::Pointer { location: 0, components: 3, stride: 24, offset: 0 },
            AttributeCommand::Pointer { location: 1, components: 3, stride: 24, offset: 12 },
        ]
    );
}

#[test]
fn attributes_follow_their_resolved_locations() {
    assert_eq!(
        attribute_commands(5, 2),
        vec![
            AttributeCommand::EnableArray { location: 5 },
            AttributeCommand::EnableArray { location: 2 },
            AttributeCommand::Pointer { location: 5, components: 3, stride: 24, offset: 0 },
            AttributeCommand::Pointer { location: 2, components: 3, stride: 24, offset: 12 },
        ]
    );
}

#[test]
fn attribute_that_the_program_lacks_is_left_alone() {
    assert_eq!(
        attribute_commands(-1, 1),
        vec![
            AttributeCommand::EnableArray { location: 1 },
            AttributeCommand::Pointer { location: 1, components: 3, stride: 24, offset: 12 },
        ]
    );
    assert_eq!(
        attribute_commands(0, -1),
        vec![
            AttributeCommand::EnableArray { location: 0 },
            AttributeCommand::Pointer { location: 0, components: 3, stride: 24, offset: 0 },
        ]
    );
    assert_eq!(attribute_commands(-1, -1), vec![]);
    assert_eq!(attribute_commands(i32::MIN, i32::MAX).len(), 2);
}
