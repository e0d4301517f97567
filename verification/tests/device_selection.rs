use wknup::device::{Device, DeviceBuildError, DeviceBuilder};
use wknup::features::{
    FeaturesInfo, FEATURE_GEOMETRY_SHADER, FEATURE_FLAG_COUNT, FEATURE_VULKAN_MEMORY_MODEL,
};
use wknup::physical_device::{
    required_device_extensions, select_physical_device, PhysicalDeviceChoiceError,
    PhysicalDeviceInfo, PhysicalDeviceType,
};
use wknup::queues::{
    check_queue_requirements, plan_queue_counts, FamilyQueues, Queue, QueueFamilyProperties,
    QueueFamilySelector,
};
use wknup::selectors::DrawQueueFamilySelector;
use wknup::surface::{
    Extent2d, PhysicalDeviceSurfaceInfo, SurfaceCapabilities, SurfaceFormat,
    COLOR_SPACE_SRGB_NONLINEAR, FORMAT_B8G8R8A8_SRGB, PRESENT_MODE_FIFO,
};

fn usable_surface_info() -> PhysicalDeviceSurfaceInfo {
    PhysicalDeviceSurfaceInfo {
        capabilities: SurfaceCapabilities {
            min_image_count: 2,
            max_image_count: 0,
            current_extent: Extent2d { width: 800, height: 600 },
            current_transform: 1,
        },
        formats: vec![SurfaceFormat {
            format: FORMAT_B8G8R8A8_SRGB,
            color_space: COLOR_SPACE_SRGB_NONLINEAR,
        }],
        present_modes: vec![PRESENT_MODE_FIFO],
    }
}

fn required_features() -> FeaturesInfo {
    let mut features = FeaturesInfo::new();
    features.set(FEATURE_GEOMETRY_SHADER, true);
    features.set(FEATURE_VULKAN_MEMORY_MODEL, true);
    features
}

fn good_device() -> PhysicalDeviceInfo {
    PhysicalDeviceInfo {
        device_type: PhysicalDeviceType::DiscreteGpu,
        features: required_features(),
        available_extensions: required_device_extensions(),
        queue_families: vec![QueueFamilyProperties {
            queue_count: 4,
            supports_graphics: true,
            supports_present: true,
        }],
    }
}

fn selector() -> DrawQueueFamilySelector {
    DrawQueueFamilySelector::new(&usable_surface_info())
}

#[test]
fn feature_check_is_pointwise() {
    assert!(required_features().check_required().is_ok());
    assert!(FeaturesInfo::required().check_required().is_ok());
    let mut missing = required_features();
    missing.set(FEATURE_GEOMETRY_SHADER, false);
    assert!(missing.check_required().is_err());
    let all = FeaturesInfo::from_flags(vec![true; FEATURE_FLAG_COUNT]).unwrap();
    assert!(all.check_required().is_ok());
    assert!(FeaturesInfo::from_flags(vec![true; 3]).is_none());
}

#[test]
fn wrong_device_type_rates_zero() {
    let mut device = good_device();
    device.device_type = PhysicalDeviceType::Cpu;
    let err = select_physical_device(&vec![device], selector()).unwrap_err();
    assert_eq!(err, PhysicalDeviceChoiceError::SuitableDeviceNotFound);
}

#[test]
fn missing_extension_rates_zero() {
    let mut device = good_device();
    device.available_extensions = vec!["VK_KHR_swapchain".to_string()];
    let err = select_physical_device(&vec![device], selector()).unwrap_err();
    assert_eq!(err, PhysicalDeviceChoiceError::SuitableDeviceNotFound);
}

#[test]
fn missing_feature_rates_zero() {
    let mut device = good_device();
    device.features = FeaturesInfo::new();
    let err = select_physical_device(&vec![device], selector()).unwrap_err();
    assert_eq!(err, PhysicalDeviceChoiceError::SuitableDeviceNotFound);
}

#[test]
fn incomplete_queue_families_rate_zero() {
    let mut device = good_device();
    device.queue_families = vec![QueueFamilyProperties {
        queue_count: 4,
        supports_graphics: true,
        supports_present: false,
    }];
    let err = select_physical_device(&vec![device], selector()).unwrap_err();
    assert_eq!(err, PhysicalDeviceChoiceError::SuitableDeviceNotFound);
}

#[test]
fn empty_enumeration_is_device_not_found() {
    let err = select_physical_device(&Vec::new(), selector()).unwrap_err();
    assert_eq!(err, PhysicalDeviceChoiceError::DeviceNotFound);
    assert_eq!(err.message(), "no physical device found");
    assert_eq!(
        PhysicalDeviceChoiceError::SuitableDeviceNotFound.message(),
        "no suitable physical device found"
    );
}

#[test]
fn first_suitable_device_wins() {
    let mut bad = good_device();
    bad.device_type = PhysicalDeviceType::Other;
    let devices = vec![bad, good_device(), good_device()];
    let choice = select_physical_device(&devices, selector()).unwrap();
    assert_eq!(choice.rating, 1);
    assert_eq!(choice.device_index, 1);
    assert_eq!(choice.queue_counts, vec![4]);
}

#[test]
fn scenario_single_family_requirements() {
    // one queue family with graphics, presentation and full swapchain
    // support: selection rates the device 1 and the requirement list is one
    // entry for family 0 with a single lowest-priority queue
    let choice = select_physical_device(&vec![good_device()], selector()).unwrap();
    assert_eq!(choice.rating, 1);
    assert!(choice.queue_family_selector.is_complete());
    assert_eq!(choice.queue_family_selector.graphics, Some(0));
    assert_eq!(choice.queue_family_selector.present, Some(0));
    let requirements = choice.queue_family_selector.requirements();
    assert_eq!(requirements.len(), 1);
    assert_eq!(requirements[0].family_index, 0);
    assert_eq!(requirements[0].priorities, vec![0]);
}

#[test]
fn split_families_yield_two_requirements_and_matching_provenance() {
    let mut device = good_device();
    device.queue_families = vec![
        QueueFamilyProperties { queue_count: 1, supports_graphics: true, supports_present: false },
        QueueFamilyProperties { queue_count: 1, supports_graphics: false, supports_present: true },
    ];
    let choice = select_physical_device(&vec![device], selector()).unwrap();
    let chooser = choice.queue_family_selector;
    assert_eq!(chooser.graphics, Some(0));
    assert_eq!(chooser.present, Some(1));
    let requirements = chooser.requirements();
    assert_eq!(requirements.len(), 2);
    assert_eq!(requirements[0].family_index, 0);
    assert_eq!(requirements[1].family_index, 1);

    let raw = vec![
        FamilyQueues { family_index: 0, queues: vec![Queue::new(0, 0)] },
        FamilyQueues { family_index: 1, queues: vec![Queue::new(1, 0)] },
    ];
    let queues = chooser.fill_queues(&raw);
    assert_eq!(queues.graphics.family_index, 0);
    assert_eq!(queues.present.family_index, 1);
}

#[test]
fn device_build_plans_counts_and_extensions() {
    let devices = vec![good_device()];
    let plan = DeviceBuilder::new(selector()).build(&devices).unwrap();
    assert_eq!(plan.device_index, 0);
    assert_eq!(plan.queue_counts, vec![1]);
    assert_eq!(plan.requirements.len(), 1);
    assert_eq!(
        plan.enabled_extensions,
        vec!["VK_KHR_swapchain".to_string(), "VK_KHR_vulkan_memory_model".to_string()]
    );
    let device = Device::new(plan.queue_counts);
    assert_eq!(device.get_queue_family_count(), 1);
    assert_eq!(device.get_queue_counts(), vec![1]);
}

#[test]
fn device_build_reports_selection_failures() {
    let err = DeviceBuilder::new(selector()).build(&Vec::new()).unwrap_err();
    assert_eq!(
        err,
        DeviceBuildError::Choice(PhysicalDeviceChoiceError::DeviceNotFound)
    );
    // a suitable device whose only family offers no queue at all cannot
    // satisfy the selector's requirements
    let mut device = good_device();
    device.queue_families = vec![QueueFamilyProperties {
        queue_count: 0,
        supports_graphics: true,
        supports_present: true,
    }];
    let err = DeviceBuilder::new(selector()).build(&vec![device]).unwrap_err();
    assert_eq!(err, DeviceBuildError::InvalidQueueRequirements);
}

#[test]
fn fill_selector_types_the_queues() {
    let devices = vec![good_device()];
    let plan = DeviceBuilder::new(selector()).build(&devices).unwrap();
    let device = Device::new(plan.queue_counts);
    let raw = vec![FamilyQueues { family_index: 0, queues: vec![Queue::new(0, 0)] }];
    let queues = wknup::device::fill_selector(&device, &plan.queue_family_selector, &raw);
    assert_eq!(queues.graphics.family_index, 0);
    assert_eq!(queues.present.family_index, 0);
    assert_eq!(queues.graphics.queue_index, 0);
}

#[test]
fn feature_error_message() {
    let mut missing = required_features();
    missing.set(FEATURE_GEOMETRY_SHADER, false);
    let err = missing.check_required().unwrap_err();
    assert_eq!(err.message(), "not all required device features are available");
}

#[test]
fn queue_requirement_validation_and_planning() {
    let chooser_devices = vec![good_device()];
    let choice = select_physical_device(&chooser_devices, selector()).unwrap();
    let requirements = choice.queue_family_selector.requirements();
    assert!(check_queue_requirements(&requirements, &choice.queue_counts));
    let planned = plan_queue_counts(&requirements, &choice.queue_counts);
    assert_eq!(planned, vec![1]);
    // a family the device does not have is rejected
    assert!(!check_queue_requirements(&requirements, &Vec::new()));
}
