use embercore_client_lib::rendering::swapchain::{Dimensions, Swapchain, SwapchainImage};

#[test]
fn first_generation_is_zero() {
    let swapchain = Swapchain::new(3, Dimensions::new(1024, 768));
    assert_eq!(swapchain.generation, 0);
    assert_eq!(swapchain.num_images, 3);
    assert_eq!(swapchain.dimensions, Dimensions { width: 1024, height: 768 });
}

#[test]
fn recreation_counts_generations() {
    let first = Swapchain::new(3, Dimensions::new(1024, 768));
    let second = first.recreated(2, Dimensions::new(640, 480));
    assert_eq!(
        second,
        Swapchain { generation: 1, num_images: 2, dimensions: Dimensions::new(640, 480) }
    );
    let third = second.recreated(2, Dimensions::new(640, 480));
    assert_eq!(third.generation, 2);
    assert_ne!(second, third);
}

#[test]
fn generation_count_starts_over() {
    let last = Swapchain { generation: u64::MAX, num_images: 2, dimensions: Dimensions::new(8, 8) };
    assert_eq!(last.recreated(2, Dimensions::new(8, 8)).generation, 0);
}

#[test]
fn images_are_numbered_within_their_generation() {
    let swapchain = Swapchain::new(3, Dimensions::new(4, 4)).recreated(3, Dimensions::new(4, 4));
    assert_eq!(
        swapchain.images(),
        vec![
            SwapchainImage { generation: 1, index: 0 },
            SwapchainImage { generation: 1, index: 1 },
            SwapchainImage { generation: 1, index: 2 },
        ]
    );
}

#[test]
fn swapchain_without_images_has_none() {
    assert!(Swapchain::new(0, Dimensions::new(4, 4)).images().is_empty());
}
