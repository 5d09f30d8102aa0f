use vk_bringup::config::names_all_available;
use vk_bringup::config::required_device_extensions;
use vk_bringup::config::required_validation_layers;
use vk_bringup::config::AppConfig;

#[test]
fn default_configuration_enables_validation() {
    let config = AppConfig::new_default();
    assert_eq!(config.window_width, 800);
    assert_eq!(config.window_height, 600);
    assert!(config.validation_enabled);
}

#[test]
fn swapchain_support_is_the_required_extension() {
    let names = required_device_extensions();
    assert_eq!(names, vec!["VK_KHR_swapchain".to_string()]);
    assert_eq!(
        required_validation_layers(),
        vec!["VK_LAYER_KHRONOS_validation".to_string()]
    );
}

#[test]
fn extension_availability_checks_every_required_name() {
    let required = required_device_extensions();
    let available = vec![
        "VK_KHR_surface".to_string(),
        "VK_KHR_swapchain".to_string(),
    ];
    assert!(names_all_available(&required, &available));
    let missing = vec!["VK_KHR_surface".to_string()];
    assert!(!names_all_available(&required, &missing));
    // No requirement is vacuously satisfied.
    assert!(names_all_available(&Vec::new(), &missing));
}
