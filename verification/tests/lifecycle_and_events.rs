use vk_bringup::error::BringUpError;
use vk_bringup::error::Stage;
use vk_bringup::events::first_stop;
use vk_bringup::events::handle_event;
use vk_bringup::events::Disposition;
use vk_bringup::events::LoopEvent;
use vk_bringup::lifecycle::LifecycleOwner;
use vk_bringup::lifecycle::LifecycleState;
use vk_bringup::lifecycle::Resource;
use vk_bringup::lifecycle::ResourceKind;

/// Records a full successful bring-up and returns the owner, initialized.
fn bring_up_all(validation: bool) -> LifecycleOwner {
    let mut owner = LifecycleOwner::new();
    owner.record(ResourceKind::Instance, 1).unwrap();
    if validation {
        owner.record(ResourceKind::DebugReporter, 2).unwrap();
    }
    owner.record(ResourceKind::Surface, 3).unwrap();
    owner.record(ResourceKind::LogicalDevice, 4).unwrap();
    owner.record(ResourceKind::Swapchain, 5).unwrap();
    owner.record(ResourceKind::ImageView, 6).unwrap();
    owner.record(ResourceKind::ImageView, 7).unwrap();
    owner.record(ResourceKind::RenderPass, 8).unwrap();
    owner.record(ResourceKind::PipelineLayout, 9).unwrap();
    owner.record(ResourceKind::Pipeline, 10).unwrap();
    owner.record(ResourceKind::Framebuffer, 11).unwrap();
    owner.record(ResourceKind::Framebuffer, 12).unwrap();
    owner.mark_initialized(validation).unwrap();
    owner
}

#[test]
fn teardown_after_success_destroys_everything_in_reverse() {
    let mut owner = bring_up_all(true);
    assert_eq!(owner.state(), LifecycleState::Initialized);
    let plan = owner.teardown();
    let handles: Vec<u64> = plan.iter().map(|r| r.handle).collect();
    assert_eq!(handles, vec![12, 11, 10, 9, 8, 7, 6, 5, 4, 3, 2, 1]);
    let kinds: Vec<ResourceKind> = plan.iter().map(|r| r.kind).collect();
    assert_eq!(
        kinds,
        vec![
            ResourceKind::Framebuffer,
            ResourceKind::Framebuffer,
            ResourceKind::Pipeline,
            ResourceKind::PipelineLayout,
            ResourceKind::RenderPass,
            ResourceKind::ImageView,
            ResourceKind::ImageView,
            ResourceKind::Swapchain,
            ResourceKind::LogicalDevice,
            ResourceKind::Surface,
            ResourceKind::DebugReporter,
            ResourceKind::Instance,
        ]
    );
    assert_eq!(owner.state(), LifecycleState::Destroyed);
    assert_eq!(owner.resource_count(), 0);
}

#[test]
fn teardown_after_mid_sequence_failure_unwinds_exactly_what_exists() {
    // Bring-up got as far as the image views; render pass creation failed.
    let mut owner = LifecycleOwner::new();
    owner.record(ResourceKind::Instance, 1).unwrap();
    owner.record(ResourceKind::Surface, 2).unwrap();
    owner.record(ResourceKind::LogicalDevice, 3).unwrap();
    owner.record(ResourceKind::Swapchain, 4).unwrap();
    owner.record(ResourceKind::ImageView, 5).unwrap();
    let plan = owner.teardown();
    let handles: Vec<u64> = plan.iter().map(|r| r.handle).collect();
    // Every handle created so far and only those, in reverse order.
    assert_eq!(handles, vec![5, 4, 3, 2, 1]);
    assert_eq!(owner.state(), LifecycleState::Destroyed);
}

#[test]
fn second_teardown_is_a_no_op() {
    let mut owner = bring_up_all(false);
    let first = owner.teardown();
    assert!(!first.is_empty());
    let second = owner.teardown();
    assert!(second.is_empty());
    assert_eq!(owner.state(), LifecycleState::Destroyed);
}

#[test]
fn teardown_of_an_empty_owner_is_empty() {
    let mut owner = LifecycleOwner::new();
    let plan = owner.teardown();
    assert!(plan.is_empty());
    assert_eq!(owner.state(), LifecycleState::Destroyed);
}

#[test]
fn recording_out_of_creation_order_is_a_configuration_bug() {
    let mut owner = LifecycleOwner::new();
    owner.record(ResourceKind::Surface, 1).unwrap();
    let r = owner.record(ResourceKind::Instance, 2);
    assert_eq!(r, Err(BringUpError::ConfigurationBug(Stage::Instance)));
    // The rejected record left the owner unchanged.
    assert_eq!(owner.resource_count(), 1);
}

#[test]
fn recording_after_teardown_is_rejected() {
    let mut owner = LifecycleOwner::new();
    owner.record(ResourceKind::Instance, 1).unwrap();
    owner.teardown();
    let r = owner.record(ResourceKind::Instance, 2);
    assert!(r.is_err());
}

#[test]
fn initialization_requires_every_stage() {
    let mut owner = LifecycleOwner::new();
    owner.record(ResourceKind::Instance, 1).unwrap();
    assert!(owner.mark_initialized(false).is_err());
    assert_eq!(owner.state(), LifecycleState::Uninitialized);
}

#[test]
fn initialization_requires_the_debug_reporter_only_with_validation() {
    let owner = bring_up_all(false);
    assert_eq!(owner.state(), LifecycleState::Initialized);

    // The same sequence without the reporter cannot initialize under
    // validation.
    let mut owner = LifecycleOwner::new();
    owner.record(ResourceKind::Instance, 1).unwrap();
    owner.record(ResourceKind::Surface, 3).unwrap();
    owner.record(ResourceKind::LogicalDevice, 4).unwrap();
    owner.record(ResourceKind::Swapchain, 5).unwrap();
    owner.record(ResourceKind::ImageView, 6).unwrap();
    owner.record(ResourceKind::RenderPass, 8).unwrap();
    owner.record(ResourceKind::PipelineLayout, 9).unwrap();
    owner.record(ResourceKind::Pipeline, 10).unwrap();
    owner.record(ResourceKind::Framebuffer, 11).unwrap();
    assert!(owner.mark_initialized(true).is_err());
}

#[test]
fn close_request_on_the_first_poll_stops_the_run() {
    let events = vec![LoopEvent::CloseRequested, LoopEvent::Other];
    assert_eq!(first_stop(&events), Some(0));

    // Teardown then executes exactly once, in the full prescribed order.
    let mut owner = bring_up_all(true);
    let plan = owner.teardown();
    assert_eq!(plan.len(), 12);
    assert_eq!(
        plan[0],
        Resource {
            kind: ResourceKind::Framebuffer,
            handle: 12
        }
    );
    assert_eq!(
        plan[11],
        Resource {
            kind: ResourceKind::Instance,
            handle: 1
        }
    );
    assert!(owner.teardown().is_empty());
}

#[test]
fn cancel_key_stops_and_other_events_continue() {
    assert_eq!(handle_event(LoopEvent::CancelKeyPressed), Disposition::Stop);
    assert_eq!(handle_event(LoopEvent::CloseRequested), Disposition::Stop);
    assert_eq!(
        handle_event(LoopEvent::OtherKeyPressed),
        Disposition::Continue
    );
    assert_eq!(handle_event(LoopEvent::Other), Disposition::Continue);

    let events = vec![
        LoopEvent::Other,
        LoopEvent::OtherKeyPressed,
        LoopEvent::CancelKeyPressed,
    ];
    assert_eq!(first_stop(&events), Some(2));
    let events = vec![LoopEvent::Other, LoopEvent::OtherKeyPressed];
    assert_eq!(first_stop(&events), None);
}

#[test]
fn errors_name_their_failing_stage() {
    let e = BringUpError::EnvironmentUnsupported(Stage::Swapchain);
    assert_eq!(e.stage(), Stage::Swapchain);
    assert_eq!(e.describe(), "environment unsupported at swapchain creation");
    let e = BringUpError::DriverRejected(Stage::RenderPass);
    assert_eq!(e.describe(), "driver rejected render pass creation");
    let e = BringUpError::ConfigurationBug(Stage::Framebuffers);
    assert_eq!(e.describe(), "configuration bug at framebuffer creation");
}
