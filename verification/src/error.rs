//! Result codes reported by the graphics driver, with their numeric values,
//! display names and documented meanings.

use vstd::prelude::*;
use vstd::string::StringExecFns;

verus! {

/// The result codes a driver call can report.
#[derive(Debug, Clone, Copy, PartialEq, Eq, Structural)]
pub enum VulkanResult {
    Success,
    NotReady,
    Timeout,
    EventSet,
    EventReset,
    Incomplete,
    ErrorOutOfHostMemory,
    ErrorOutOfDeviceMemory,
    ErrorInitializationFailed,
    ErrorDeviceLost,
    ErrorMemoryMapFailed,
    ErrorLayerNotPresent,
    ErrorExtensionNotPresent,
    ErrorFeatureNotPresent,
    ErrorIncompatibleDriver,
    ErrorTooManyObjects,
    ErrorFormatNotSupported,
    ErrorFragmentedPool,
    ErrorUnknown,
}

impl VulkanResult {
    /// The numeric code of this result, as the driver reports it.
    pub open spec fn spec_code(self) -> int {
        match self {
            VulkanResult::Success => 0,
            VulkanResult::NotReady => 1,
            VulkanResult::Timeout => 2,
            VulkanResult::EventSet => 3,
            VulkanResult::EventReset => 4,
            VulkanResult::Incomplete => 5,
            VulkanResult::ErrorOutOfHostMemory => -1,
            VulkanResult::ErrorOutOfDeviceMemory => -2,
            VulkanResult::ErrorInitializationFailed => -3,
            VulkanResult::ErrorDeviceLost => -4,
            VulkanResult::ErrorMemoryMapFailed => -5,
            VulkanResult::ErrorLayerNotPresent => -6,
            VulkanResult::ErrorExtensionNotPresent => -7,
            VulkanResult::ErrorFeatureNotPresent => -8,
            VulkanResult::ErrorIncompatibleDriver => -9,
            VulkanResult::ErrorTooManyObjects => -10,
            VulkanResult::ErrorFormatNotSupported => -11,
            VulkanResult::ErrorFragmentedPool => -12,
            VulkanResult::ErrorUnknown => -13,
        }
    }

    /// The result a numeric driver code stands for, if it is a known code.
    pub open spec fn spec_from_code(code: int) -> Option<VulkanResult> {
        if code == 0 {
            Some(VulkanResult::Success)
        } else if code == 1 {
            Some(VulkanResult::NotReady)
        } else if code == 2 {
            Some(VulkanResult::Timeout)
        } else if code == 3 {
            Some(VulkanResult::EventSet)
        } else if code == 4 {
            Some(VulkanResult::EventReset)
        } else if code == 5 {
            Some(VulkanResult::Incomplete)
        } else if code == -1 {
            Some(VulkanResult::ErrorOutOfHostMemory)
        } else if code == -2 {
            Some(VulkanResult::ErrorOutOfDeviceMemory)
        } else if code == -3 {
            Some(VulkanResult::ErrorInitializationFailed)
        } else if code == -4 {
            Some(VulkanResult::ErrorDeviceLost)
        } else if code == -5 {
            Some(VulkanResult::ErrorMemoryMapFailed)
        } else if code == -6 {
            Some(VulkanResult::ErrorLayerNotPresent)
        } else if code == -7 {
            Some(VulkanResult::ErrorExtensionNotPresent)
        } else if code == -8 {
            Some(VulkanResult::ErrorFeatureNotPresent)
        } else if code == -9 {
            Some(VulkanResult::ErrorIncompatibleDriver)
        } else if code == -10 {
            Some(VulkanResult::ErrorTooManyObjects)
        } else if code == -11 {
            Some(VulkanResult::ErrorFormatNotSupported)
        } else if code == -12 {
            Some(VulkanResult::ErrorFragmentedPool)
        } else if code == -13 {
            Some(VulkanResult::ErrorUnknown)
        } else {
            None
        }
    }

    pub fn code(&self) -> (r: i32)
        ensures
            r == self.spec_code(),
    {
        match self {
            VulkanResult::Success => 0,
            VulkanResult::NotReady => 1,
            VulkanResult::Timeout => 2,
            VulkanResult::EventSet => 3,
            VulkanResult::EventReset => 4,
            VulkanResult::Incomplete => 5,
            VulkanResult::ErrorOutOfHostMemory => -1,
            VulkanResult::ErrorOutOfDeviceMemory => -2,
            VulkanResult::ErrorInitializationFailed => -3,
            VulkanResult::ErrorDeviceLost => -4,
            VulkanResult::ErrorMemoryMapFailed => -5,
            VulkanResult::ErrorLayerNotPresent => -6,
            VulkanResult::ErrorExtensionNotPresent => -7,
            VulkanResult::ErrorFeatureNotPresent => -8,
            VulkanResult::ErrorIncompatibleDriver => -9,
            VulkanResult::ErrorTooManyObjects => -10,
            VulkanResult::ErrorFormatNotSupported => -11,
            VulkanResult::ErrorFragmentedPool => -12,
            VulkanResult::ErrorUnknown => -13,
        }
    }

    /// Decodes a numeric driver code; `None` for a code this table does not
    /// cover.
    pub fn from_code(code: i32) -> (r: Option<VulkanResult>)
        ensures
            r == Self::spec_from_code(code as int),
    {
        if code == 0 {
            Some(VulkanResult::Success)
        } else if code == 1 {
            Some(VulkanResult::NotReady)
        } else if code == 2 {
            Some(VulkanResult::Timeout)
        } else if code == 3 {
            Some(VulkanResult::EventSet)
        } else if code == 4 {
            Some(VulkanResult::EventReset)
        } else if code == 5 {
            Some(VulkanResult::Incomplete)
        } else if code == -1 {
            Some(VulkanResult::ErrorOutOfHostMemory)
        } else if code == -2 {
            Some(VulkanResult::ErrorOutOfDeviceMemory)
        } else if code == -3 {
            Some(VulkanResult::ErrorInitializationFailed)
        } else if code == -4 {
            Some(VulkanResult::ErrorDeviceLost)
        } else if code == -5 {
            Some(VulkanResult::ErrorMemoryMapFailed)
        } else if code == -6 {
            Some(VulkanResult::ErrorLayerNotPresent)
        } else if code == -7 {
            Some(VulkanResult::ErrorExtensionNotPresent)
        } else if code == -8 {
            Some(VulkanResult::ErrorFeatureNotPresent)
        } else if code == -9 {
            Some(VulkanResult::ErrorIncompatibleDriver)
        } else if code == -10 {
            Some(VulkanResult::ErrorTooManyObjects)
        } else if code == -11 {
            Some(VulkanResult::ErrorFormatNotSupported)
        } else if code == -12 {
            Some(VulkanResult::ErrorFragmentedPool)
        } else if code == -13 {
            Some(VulkanResult::ErrorUnknown)
        } else {
            None
        }
    }

    /// The display name of this result (empty for success).
    pub open spec fn spec_name(self) -> Seq<char> {
        match self {
            VulkanResult::Success => ""@,
            VulkanResult::NotReady => "NOT_READY"@,
            VulkanResult::Timeout => "TIMEOUT"@,
            VulkanResult::EventSet => "EVENT_SET"@,
            VulkanResult::EventReset => "EVENT_RESET"@,
            VulkanResult::Incomplete => "INCOMPLETE"@,
            VulkanResult::ErrorOutOfHostMemory => "ERROR_OUT_OF_HOST_MEMORY"@,
            VulkanResult::ErrorOutOfDeviceMemory => "ERROR_OUT_OF_DEVICE_MEMORY"@,
            VulkanResult::ErrorInitializationFailed => "ERROR_INITIALIZATION_FAILED"@,
            VulkanResult::ErrorDeviceLost => "ERROR_DEVICE_LOST"@,
            VulkanResult::ErrorMemoryMapFailed => "ERROR_MEMORY_MAP_FAILED"@,
            VulkanResult::ErrorLayerNotPresent => "ERROR_LAYER_NOT_PRESENT"@,
            VulkanResult::ErrorExtensionNotPresent => "ERROR_EXTENSION_NOT_PRESENT"@,
            VulkanResult::ErrorFeatureNotPresent => "ERROR_FEATURE_NOT_PRESENT"@,
            VulkanResult::ErrorIncompatibleDriver => "ERROR_INCOMPATIBLE_DRIVER"@,
            VulkanResult::ErrorTooManyObjects => "ERROR_TOO_MANY_OBJECTS"@,
            VulkanResult::ErrorFormatNotSupported => "ERROR_FORMAT_NOT_SUPPORTED"@,
            VulkanResult::ErrorFragmentedPool => "ERROR_FRAGMENTED_POOL"@,
            VulkanResult::ErrorUnknown => "ERROR_UNKNOWN"@,
        }
    }

    pub fn name(&self) -> (r: String)
        ensures
            r@ == self.spec_name(),
    {
        match self {
            VulkanResult::Success => "".to_owned(),
            VulkanResult::NotReady => "NOT_READY".to_owned(),
            VulkanResult::Timeout => "TIMEOUT".to_owned(),
            VulkanResult::EventSet => "EVENT_SET".to_owned(),
            VulkanResult::EventReset => "EVENT_RESET".to_owned(),
            VulkanResult::Incomplete => "INCOMPLETE".to_owned(),
            VulkanResult::ErrorOutOfHostMemory => "ERROR_OUT_OF_HOST_MEMORY".to_owned(),
            VulkanResult::ErrorOutOfDeviceMemory => "ERROR_OUT_OF_DEVICE_MEMORY".to_owned(),
            VulkanResult::ErrorInitializationFailed => "ERROR_INITIALIZATION_FAILED".to_owned(),
            VulkanResult::ErrorDeviceLost => "ERROR_DEVICE_LOST".to_owned(),
            VulkanResult::ErrorMemoryMapFailed => "ERROR_MEMORY_MAP_FAILED".to_owned(),
            VulkanResult::ErrorLayerNotPresent => "ERROR_LAYER_NOT_PRESENT".to_owned(),
            VulkanResult::ErrorExtensionNotPresent => "ERROR_EXTENSION_NOT_PRESENT".to_owned(),
            VulkanResult::ErrorFeatureNotPresent => "ERROR_FEATURE_NOT_PRESENT".to_owned(),
            VulkanResult::ErrorIncompatibleDriver => "ERROR_INCOMPATIBLE_DRIVER".to_owned(),
            VulkanResult::ErrorTooManyObjects => "ERROR_TOO_MANY_OBJECTS".to_owned(),
            VulkanResult::ErrorFormatNotSupported => "ERROR_FORMAT_NOT_SUPPORTED".to_owned(),
            VulkanResult::ErrorFragmentedPool => "ERROR_FRAGMENTED_POOL".to_owned(),
            VulkanResult::ErrorUnknown => "ERROR_UNKNOWN".to_owned(),
        }
    }

    /// The documented meaning of this result.
    pub open spec fn spec_doc(self) -> Seq<char> {
        match self {
            VulkanResult::Success => "Command completed successfully"@,
            VulkanResult::NotReady => "A fence or query has not yet completed"@,
            VulkanResult::Timeout => "A wait operation has not completed in the specified time"@,
            VulkanResult::EventSet => "An event is signaled"@,
            VulkanResult::EventReset => "An event is unsignaled"@,
            VulkanResult::Incomplete => "A return array was too small for the result"@,
            VulkanResult::ErrorOutOfHostMemory => "A host memory allocation has failed"@,
            VulkanResult::ErrorOutOfDeviceMemory => "A device memory allocation has failed"@,
            VulkanResult::ErrorInitializationFailed => "Initialization of an object has failed"@,
            VulkanResult::ErrorDeviceLost => "The logical device has been lost. See <https://registry.khronos.org/vulkan/specs/1.3-extensions/html/vkspec.html#devsandqueues-lost-device>"@,
            VulkanResult::ErrorMemoryMapFailed => "Mapping of a memory object has failed"@,
            VulkanResult::ErrorLayerNotPresent => "Layer specified does not exist"@,
            VulkanResult::ErrorExtensionNotPresent => "Extension specified does not exist"@,
            VulkanResult::ErrorFeatureNotPresent => "Requested feature is not available on this device"@,
            VulkanResult::ErrorIncompatibleDriver => "Unable to find a Vulkan driver"@,
            VulkanResult::ErrorTooManyObjects => "Too many objects of the type have already been created"@,
            VulkanResult::ErrorFormatNotSupported => "Requested format is not supported on this device"@,
            VulkanResult::ErrorFragmentedPool => "A requested pool allocation has failed due to fragmentation of the pool's memory"@,
            VulkanResult::ErrorUnknown => "An unknown error has occurred, due to an implementation or application bug"@,
        }
    }

    pub fn doc(&self) -> (r: String)
        ensures
            r@ == self.spec_doc(),
    {
        match self {
            VulkanResult::Success => "Command completed successfully".to_owned(),
            VulkanResult::NotReady => "A fence or query has not yet completed".to_owned(),
            VulkanResult::Timeout => "A wait operation has not completed in the specified time".to_owned(),
            VulkanResult::EventSet => "An event is signaled".to_owned(),
            VulkanResult::EventReset => "An event is unsignaled".to_owned(),
            VulkanResult::Incomplete => "A return array was too small for the result".to_owned(),
            VulkanResult::ErrorOutOfHostMemory => "A host memory allocation has failed".to_owned(),
            VulkanResult::ErrorOutOfDeviceMemory => "A device memory allocation has failed".to_owned(),
            VulkanResult::ErrorInitializationFailed => "Initialization of an object has failed".to_owned(),
            VulkanResult::ErrorDeviceLost => "The logical device has been lost. See <https://registry.khronos.org/vulkan/specs/1.3-extensions/html/vkspec.html#devsandqueues-lost-device>".to_owned(),
            VulkanResult::ErrorMemoryMapFailed => "Mapping of a memory object has failed".to_owned(),
            VulkanResult::ErrorLayerNotPresent => "Layer specified does not exist".to_owned(),
            VulkanResult::ErrorExtensionNotPresent => "Extension specified does not exist".to_owned(),
            VulkanResult::ErrorFeatureNotPresent => "Requested feature is not available on this device".to_owned(),
            VulkanResult::ErrorIncompatibleDriver => "Unable to find a Vulkan driver".to_owned(),
            VulkanResult::ErrorTooManyObjects => "Too many objects of the type have already been created".to_owned(),
            VulkanResult::ErrorFormatNotSupported => "Requested format is not supported on this device".to_owned(),
            VulkanResult::ErrorFragmentedPool => "A requested pool allocation has failed due to fragmentation of the pool's memory".to_owned(),
            VulkanResult::ErrorUnknown => "An unknown error has occurred, due to an implementation or application bug".to_owned(),
        }
    }
}

/// The diagnostic line for a driver failure that the design treats as fatal:
/// the failing operation, the result's display name, and its documented
/// meaning. The caller is expected to report this message and abort.
pub fn fatal_vk_error(msg: &str, error: VulkanResult) -> (r: String)
    ensures
        r@ == "fatal: "@ + msg@ + ": "@ + error.spec_name() + " ("@ + error.spec_doc() + ")"@,
{
    let name = error.name();
    let doc = error.doc();
    let s = "fatal: ".to_owned();
    let s = s.concat(msg);
    let s = s.concat(": ");
    let s = s.concat(name.as_str());
    let s = s.concat(" (");
    let s = s.concat(doc.as_str());
    let s = s.concat(")");
    proof {
        assert(s@ =~= "fatal: "@ + msg@ + ": "@ + error.spec_name() + " ("@ + error.spec_doc()
            + ")"@);
    }
    s
}

} // verus!
