use embercore_client_lib::rendering::command_buffer::{DescriptorSet, SecondaryCommands};
use embercore_client_lib::rendering::composing_subsystem::{
    ComposingSubsystem, ComposingSystemInput,
};
use embercore_client_lib::rendering::framebuffer::{
    Attachments, DynamicState, RenderPass, Subpass, Viewport, COMPOSE_SUBPASS,
};
use embercore_client_lib::rendering::swapchain::Dimensions;

fn compose_subpass() -> Subpass {
    Subpass { render_pass: RenderPass::deferred(), index: COMPOSE_SUBPASS }
}

#[test]
fn input_is_made_of_both_attachments() {
    let attachments = Attachments::new(0, Dimensions::new(320, 200));
    let input = ComposingSystemInput::from(attachments);
    assert_eq!(input.diffuse, attachments.diffuse);
    assert_eq!(input.depth, attachments.depth);
}

#[test]
fn descriptor_set_binds_colour_and_depth() {
    let attachments = Attachments::new(0, Dimensions::new(320, 200));
    let descriptor_set = ComposingSystemInput::from(attachments).create_descriptor_set();
    assert_eq!(
        descriptor_set,
        DescriptorSet { diffuse: attachments.diffuse, depth: attachments.depth }
    );
    assert_ne!(descriptor_set.diffuse, descriptor_set.depth);
}

#[test]
fn update_input_to_a_new_generation_of_the_same_size_rebinds_both() {
    let dimensions = Dimensions::new(320, 200);
    let old = Attachments::new(4, dimensions);
    let new = Attachments::new(5, dimensions);
    let mut stage = ComposingSubsystem::new(compose_subpass(), ComposingSystemInput::from(old));
    stage.update_input(ComposingSystemInput::from(new));
    assert_eq!(stage.descriptor_set, DescriptorSet { diffuse: new.diffuse, depth: new.depth });
    assert_ne!(stage.descriptor_set.diffuse, old.diffuse);
    assert_ne!(stage.descriptor_set.depth, old.depth);
}

#[test]
fn update_input_rebinds_and_keeps_the_subpass() {
    let old = Attachments::new(0, Dimensions::new(320, 200));
    let new = Attachments::new(0, Dimensions::new(640, 400));
    let mut stage = ComposingSubsystem::new(compose_subpass(), ComposingSystemInput::from(old));
    assert_eq!(stage.descriptor_set.diffuse, old.diffuse);
    assert_eq!(stage.descriptor_set.depth, old.depth);
    stage.update_input(ComposingSystemInput::from(new));
    assert_eq!(stage.descriptor_set.diffuse, new.diffuse);
    assert_eq!(stage.descriptor_set.depth, new.depth);
    assert_eq!(stage.subpass, compose_subpass());
}

#[test]
fn draw_records_the_quad_over_the_bound_input() {
    let attachments = Attachments::new(0, Dimensions::new(320, 200));
    let stage = ComposingSubsystem::new(compose_subpass(), ComposingSystemInput::from(attachments));
    let dynamic_state =
        DynamicState { viewport: Some(Viewport { dimensions: Dimensions::new(320, 200) }) };
    let before = stage;
    assert_eq!(
        stage.draw(&dynamic_state),
        SecondaryCommands::Composition {
            subpass: compose_subpass(),
            descriptor_set: DescriptorSet {
                diffuse: attachments.diffuse,
                depth: attachments.depth,
            },
            dynamic_state,
        }
    );
    assert_eq!(stage, before);
}
