use wknup::capability::CapabilitySet;
use wknup::device_extensions::{check_extensions, DeviceExtensionManager};
use wknup::extensions::ExtensionManager;
use wknup::validation::ValidationLayerManager;

fn names(list: &[&str]) -> Vec<String> {
    list.iter().map(|s| s.to_string()).collect()
}

#[test]
fn add_succeeds_exactly_when_required_is_subset() {
    let mut set = CapabilitySet::new(names(&["a", "b", "c"]));
    assert!(set.add(&names(&["a", "c"])).is_ok());
    assert!(set.add(&names(&[])).is_ok());
    assert!(set.add(&names(&["a", "d"])).is_err());
}

#[test]
fn failed_add_names_first_missing_and_changes_nothing() {
    let mut set = CapabilitySet::new(names(&["a", "b"]));
    set.add(&names(&["b"])).unwrap();
    let err = set.add(&names(&["a", "x", "y"])).unwrap_err();
    assert_eq!(err, "x");
    // the earlier enabled set is untouched by the failed add
    assert_eq!(set.list_enabled(), names(&["b"]));
}

#[test]
fn enabled_set_accumulates_monotonically() {
    let mut set = CapabilitySet::new(names(&["a", "b", "c"]));
    set.add(&names(&["b"])).unwrap();
    assert_eq!(set.list_enabled(), names(&["b"]));
    set.add(&names(&["a"])).unwrap();
    // enumeration order is kept, and nothing was removed
    assert_eq!(set.list_enabled(), names(&["a", "b"]));
}

#[test]
fn enumeration_is_deduplicated() {
    let mut set = CapabilitySet::new(names(&["a", "a", "b", "a"]));
    set.add(&names(&["a", "b"])).unwrap();
    assert_eq!(set.list_enabled(), names(&["a", "b"]));
}

#[test]
fn extension_manager_reports_missing_extension() {
    let manager = ExtensionManager::init(names(&["VK_KHR_surface"]));
    let err = manager.check_extensions(&names(&["VK_KHR_surface", "VK_EXT_absent"])).unwrap_err();
    assert_eq!(err.extension, "VK_EXT_absent");
    assert_eq!(err.message(), "instance extension VK_EXT_absent is not available");
}

#[test]
fn validation_manager_reports_missing_layer() {
    let mut manager = ValidationLayerManager::init(names(&["VK_LAYER_KHRONOS_validation"]));
    assert!(manager.add_layers(&names(&["VK_LAYER_KHRONOS_validation"])).is_ok());
    let err = manager.check_layers(&names(&["VK_LAYER_other"])).unwrap_err();
    assert_eq!(err.layer, "VK_LAYER_other");
    assert_eq!(err.message(), "validation layer VK_LAYER_other is not available");
    assert_eq!(
        manager.make_load_layer_list(),
        names(&["VK_LAYER_KHRONOS_validation"])
    );
}

#[test]
fn device_extension_check_only_mode() {
    let available = names(&["VK_KHR_swapchain", "VK_KHR_vulkan_memory_model"]);
    assert!(check_extensions(&available, &names(&["VK_KHR_swapchain"])).is_ok());
    let err = check_extensions(&available, &names(&["VK_KHR_absent"])).unwrap_err();
    assert_eq!(err.extension, "VK_KHR_absent");
    assert_eq!(err.message(), "device extension VK_KHR_absent is not available");

    let mut manager = DeviceExtensionManager::init(available);
    manager.add_extensions(&names(&["VK_KHR_swapchain"])).unwrap();
    assert_eq!(manager.list_names(), names(&["VK_KHR_swapchain"]));
}
