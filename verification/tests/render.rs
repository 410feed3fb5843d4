use gl_scene::render::background_color;
use gl_scene::render::render_commands;
use gl_scene::render::ColorBits;
use gl_scene::render::FrameUniforms;
use gl_scene::render::GlCommand;
use gl_scene::render::UniformPresence;
use gl_scene::render::Vec2Bits;
use gl_scene::scene::scene_fill_color;
use gl_scene::scene::scene_translation;
use gl_scene::scene::SCENE_TRANSLATION_X;
use gl_scene::scene::SCENE_TRANSLATION_Y;

fn all_present() -> UniformPresence {
    UniformPresence { resolution: true, color: true, translation: true }
}

fn sample_frame() -> FrameUniforms {
    FrameUniforms {
        width: 300,
        height: 150,
        color: scene_fill_color(),
        translation: scene_translation(),
    }
}

#[test]
fn a_full_frame_issues_the_nine_commands_in_order() {
    let frame = sample_frame();
    let expected = vec![
        GlCommand::SetViewport { width: 300, height: 150 },
        GlCommand::SetClearColor { color: background_color() },
        GlCommand::ClearColorBuffer,
        GlCommand::UseProgram,
        GlCommand::BindVertexArray,
        GlCommand::SetResolutionUniform { width: 300, height: 150 },
        GlCommand::SetColorUniform { color: scene_fill_color() },
        GlCommand::SetTranslationUniform { translation: scene_translation() },
        GlCommand::DrawTriangles { first: 0, count: 18 },
    ];
    assert_eq!(render_commands(&frame, &all_present()), expected);
}

#[test]
fn rendering_twice_with_equal_inputs_is_identical() {
    let frame = sample_frame();
    let first = render_commands(&frame, &all_present());
    let second = render_commands(&frame, &all_present());
    assert_eq!(first, second);
}

#[test]
fn an_absent_uniform_is_skipped_and_the_rest_keeps_its_order() {
    let frame = sample_frame();
    let present = UniformPresence { resolution: false, color: true, translation: true };
    let commands = render_commands(&frame, &present);
    assert_eq!(commands.len(), 8);
    assert!(!commands
        .iter()
        .any(|c| matches!(c, GlCommand::SetResolutionUniform { .. })));
    assert_eq!(commands[5], GlCommand::SetColorUniform { color: scene_fill_color() });
    assert_eq!(
        commands[6],
        GlCommand::SetTranslationUniform { translation: scene_translation() }
    );
    assert_eq!(commands[7], GlCommand::DrawTriangles { first: 0, count: 18 });
}

#[test]
fn with_no_uniform_found_only_the_fixed_commands_remain() {
    let frame = sample_frame();
    let present = UniformPresence { resolution: false, color: false, translation: false };
    let commands = render_commands(&frame, &present);
    assert_eq!(commands.len(), 6);
    assert_eq!(commands[5], GlCommand::DrawTriangles { first: 0, count: 18 });
}

#[test]
fn changing_only_the_translation_changes_only_one_command() {
    let frame = sample_frame();
    let mut moved = frame;
    moved.translation = Vec2Bits { x: (155.0f32).to_bits(), y: (120.0f32).to_bits() };
    let before = render_commands(&frame, &all_present());
    let after = render_commands(&moved, &all_present());
    assert_eq!(before.len(), after.len());
    for i in 0..before.len() {
        if i == 7 {
            assert_ne!(before[i], after[i]);
            assert_eq!(
                after[i],
                GlCommand::SetTranslationUniform { translation: moved.translation }
            );
        } else {
            assert_eq!(before[i], after[i]);
        }
    }
}

#[test]
fn background_is_opaque_orange() {
    let background = background_color();
    assert_eq!(background.red, (1.0f32).to_bits());
    assert_eq!(background.green, (0.5f32).to_bits());
    assert_eq!(background.blue, (0.0f32).to_bits());
    assert_eq!(background.alpha, (1.0f32).to_bits());
}

#[test]
fn scene_fill_color_bits_are_the_spec_color() {
    let color = scene_fill_color();
    assert_eq!(color.red, (0.6f32).to_bits());
    assert_eq!(color.green, (0.3f32).to_bits());
    assert_eq!(color.blue, (0.6f32).to_bits());
    assert_eq!(color.alpha, (1.0f32).to_bits());
}

#[test]
fn scene_translation_bits_are_the_pixel_offsets() {
    let translation = scene_translation();
    assert_eq!(translation.x, (150.0f32).to_bits());
    assert_eq!(translation.y, (130.0f32).to_bits());
    assert_eq!(SCENE_TRANSLATION_X, 150);
    assert_eq!(SCENE_TRANSLATION_Y, 130);
    assert_eq!(f32::from_bits(translation.x), SCENE_TRANSLATION_X as f32);
    assert_eq!(f32::from_bits(translation.y), SCENE_TRANSLATION_Y as f32);
}

#[test]
fn color_bits_round_trip_through_floats() {
    let color = ColorBits {
        red: (0.6f32).to_bits(),
        green: (0.3f32).to_bits(),
        blue: (0.6f32).to_bits(),
        alpha: (1.0f32).to_bits(),
    };
    assert_eq!((f32::from_bits(color.red)).to_bits(), color.red);
    assert_eq!(f32::from_bits(color.green), 0.3f32);
}
