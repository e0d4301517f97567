use wknup::error::{fatal_vk_error, VulkanResult};

#[test]
fn from_vk_result() {
    let vulkan_result = VulkanResult::from_code(-13).unwrap();
    assert_eq!(vulkan_result, VulkanResult::ErrorUnknown);
}

#[test]
fn name() {
    let vulkan_result = VulkanResult::from_code(-13).unwrap();
    let name = vulkan_result.name();
    assert_eq!(name, "ERROR_UNKNOWN");
}

#[test]
fn doc() {
    let vulkan_result = VulkanResult::from_code(-13).unwrap();
    let doc = vulkan_result.doc();
    assert_eq!(
        doc,
        "An unknown error has occurred, due to an implementation or application bug"
    )
}

#[test]
fn code_round_trip() {
    let codes = [0, 1, 2, 3, 4, 5, -1, -2, -3, -4, -5, -6, -7, -8, -9, -10, -11, -12, -13];
    for code in codes {
        let result = VulkanResult::from_code(code).unwrap();
        assert_eq!(result.code(), code);
    }
    assert!(VulkanResult::from_code(6).is_none());
    assert!(VulkanResult::from_code(-14).is_none());
}

#[test]
fn success_has_empty_name() {
    assert_eq!(VulkanResult::from_code(0).unwrap().name(), "");
}

#[test]
fn fatal_message() {
    let message = fatal_vk_error("ohno", VulkanResult::ErrorUnknown);
    assert_eq!(
        message,
        "fatal: ohno: ERROR_UNKNOWN (An unknown error has occurred, due to an implementation or application bug)"
    );
}
