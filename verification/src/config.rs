//! Process-wide bring-up configuration.
//!
//! These values are fixed for the process lifetime and are read at exactly
//! two points: instance creation and logical device creation. They are
//! threaded as an explicit parameter rather than read as ambient global
//! state.

use vstd::prelude::*;

verus! {

/// Default window width in pixels, a hint for the swapchain extent when the
/// surface leaves the extent to the swapchain.
pub const DEFAULT_WINDOW_WIDTH: u32 = 800;

/// Default window height in pixels.
pub const DEFAULT_WINDOW_HEIGHT: u32 = 600;

/// The recognized configuration options.
#[derive(Clone, Debug)]
pub struct AppConfig {
    /// Window title; display-only.
    pub window_title: String,
    /// Window width in pixels; positive.
    pub window_width: u32,
    /// Window height in pixels; positive.
    pub window_height: u32,
    /// When true, the required validation layers are enabled on both the
    /// instance and the device, and the debug reporter is installed; when
    /// false, all of that is skipped with no other code path difference.
    pub validation_enabled: bool,
}

impl AppConfig {
    /// The window dimensions are positive.
    pub open spec fn wf(self) -> bool {
        self.window_width > 0 && self.window_height > 0
    }

    /// The default configuration.
    pub fn new_default() -> (r: AppConfig)
        ensures
            r.wf(),
            r.window_width == DEFAULT_WINDOW_WIDTH,
            r.window_height == DEFAULT_WINDOW_HEIGHT,
            r.validation_enabled,
    {
        AppConfig {
            window_title: "Vulkan bring-up".to_string(),
            window_width: DEFAULT_WINDOW_WIDTH,
            window_height: DEFAULT_WINDOW_HEIGHT,
            validation_enabled: true,
        }
    }
}

/// The device extensions bring-up requires: swapchain support and nothing
/// else.
pub fn required_device_extensions() -> (r: Vec<String>)
    ensures
        r@.len() == 1,
        r@[0]@ == "VK_KHR_swapchain"@,
{
    let mut names: Vec<String> = Vec::new();
    names.push("VK_KHR_swapchain".to_string());
    names
}

/// The validation layers enabled when validation is on.
pub fn required_validation_layers() -> (r: Vec<String>)
    ensures
        r@.len() == 1,
        r@[0]@ == "VK_LAYER_KHRONOS_validation"@,
{
    let mut names: Vec<String> = Vec::new();
    names.push("VK_LAYER_KHRONOS_validation".to_string());
    names
}

/// The name occurs in the available list.
pub open spec fn name_available(available: Seq<String>, name: Seq<char>) -> bool {
    exists|j: int| 0 <= j < available.len() && (#[trigger] available[j])@ == name
}

/// Every required name occurs in the available list.
pub open spec fn names_available(available: Seq<String>, required: Seq<String>) -> bool {
    forall|i: int| 0 <= i < required.len() ==> name_available(available, (#[trigger] required[i])@)
}

/// Whether every required name is present among the available ones; used to
/// decide whether a device offers all required extensions.
pub fn names_all_available(required: &Vec<String>, available: &Vec<String>) -> (r: bool)
    ensures
        r == names_available(available@, required@),
{
    let mut i: usize = 0;
    while i < required.len()
        invariant
            0 <= i <= required@.len(),
            forall|k: int|
                0 <= k < i ==> name_available(available@, (#[trigger] required@[k])@),
        decreases required@.len() - i,
    {
        let mut j: usize = 0;
        let mut found = false;
        while j < available.len()
            invariant
                0 <= i < required@.len(),
                0 <= j <= available@.len(),
                found ==> name_available(available@, required@[i as int]@),
                !found ==> forall|m: int|
                    0 <= m < j ==> (#[trigger] available@[m])@ != required@[i as int]@,
            decreases available@.len() - j,
        {
            if available[j] == required[i] {
                found = true;
            }
            j += 1;
        }
        if !found {
            proof {
                assert(!name_available(available@, required@[i as int]@));
            }
            return false;
        }
        i += 1;
    }
    true
}

} // verus!
