use embercore_client_lib::rendering::command_buffer::{Command, SecondaryCommands};
use embercore_client_lib::rendering::frame_subsystem::frame::{FrameState, Pass};
use embercore_client_lib::rendering::frame_subsystem::{Acquisition, FrameSubsystem};
use embercore_client_lib::rendering::swapchain::{
    AcquireOutcome, Dimensions, FlushOutcome, RecreateOutcome,
};

#[test]
fn passes_come_in_order_and_end_is_kept() {
    let mut system = FrameSubsystem::new(3, Dimensions::new(800, 600));
    let subpass = system.deferred_subpass();
    let step = match system.frame() {
        Acquisition::Acquire(step) => step,
        Acquisition::Recreate(_) => panic!("a fresh swapchain is not marked"),
    };
    let mut frame = step
        .acquired(AcquireOutcome::Acquired { image_index: 2, suboptimal: false })
        .expect("an acquired image makes a frame");
    assert_eq!(frame.state(), FrameState::Draw);
    assert!(frame.commands().is_empty());

    match frame.next_pass() {
        Some(Pass::Draw(mut pass)) => {
            pass.execute(SecondaryCommands::Recorded { subpass, key: 7 });
        }
        _ => panic!("the first pass is the draw pass"),
    }
    match frame.next_pass() {
        Some(Pass::Compose(mut pass)) => pass.compose(),
        _ => panic!("the second pass is the composition pass"),
    }
    for _ in 0..5 {
        assert!(frame.next_pass().is_none());
        assert_eq!(frame.state(), FrameState::End);
    }

    let commands = frame.commands().clone();
    assert_eq!(commands.len(), 5);
    assert_eq!(
        commands[0],
        Command::BeginRenderPass { framebuffer: frame.system().framebuffers()[2] }
    );
    assert_eq!(
        commands[1],
        Command::ExecuteCommands { commands: SecondaryCommands::Recorded { subpass, key: 7 } }
    );
    assert_eq!(commands[2], Command::NextSubpass);
    assert_eq!(commands[4], Command::EndRenderPass);
    frame.submit(FlushOutcome::Flushed);
    assert_eq!(system.frame_future().chained(), 1);
    assert!(!system.should_recreate_swapchain());
}

#[test]
fn unsupported_dimensions_skip_the_frame_and_change_nothing() {
    let mut system = FrameSubsystem::new(2, Dimensions::new(800, 600));
    system.invalidate_swapchain();
    let before = (*system.swapchain(), *system.attachments(), system.framebuffers().clone());
    match system.frame() {
        Acquisition::Recreate(step) => {
            assert!(step.recreated(RecreateOutcome::UnsupportedDimensions).is_none());
        }
        Acquisition::Acquire(_) => panic!("a marked swapchain is recreated first"),
    }
    assert!(system.should_recreate_swapchain());
    assert_eq!(*system.swapchain(), before.0);
    assert_eq!(*system.attachments(), before.1);
    assert_eq!(*system.framebuffers(), before.2);
}
