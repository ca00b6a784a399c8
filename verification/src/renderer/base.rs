use vstd::prelude::*;

use crate::error::HobbyError;
use crate::search::{contains_all, first_true, is_first_true, names_contain};

verus! {

/// Whether validation layers are requested when the instance is created.
pub const ENABLE_VALIDATION_LAYERS: bool = true;

/// Indices of the queue families chosen for graphics and for presentation;
/// `-1` stands for "none found yet".
pub struct QueueFamilyIndices {
    pub graphics_family: i32,
    pub present_family: i32,
}

impl QueueFamilyIndices {
    pub fn new() -> (r: Self)
        ensures
            r.graphics_family == -1,
            r.present_family == -1,
    {
        Self { graphics_family: -1, present_family: -1 }
    }

    pub open spec fn spec_is_complete(&self) -> bool {
        self.graphics_family >= 0 && self.present_family >= 0
    }

    /// Whether both a graphics and a present family have been found.
    #[verifier::when_used_as_spec(spec_is_complete)]
    pub fn is_complete(&self) -> (r: bool)
        ensures
            r == self.spec_is_complete(),
    {
        self.graphics_family >= 0 && self.present_family >= 0
    }
}

/// The indices after looking at the first `n` queue families in order, where the
/// search stops at the first family after which both kinds have been found.
pub open spec fn scan_queue_families(graphics: Seq<bool>, present: Seq<bool>, n: nat)
    -> QueueFamilyIndices
    decreases n,
{
    if n == 0 {
        QueueFamilyIndices { graphics_family: -1i32, present_family: -1i32 }
    } else {
        let prev = scan_queue_families(graphics, present, (n - 1) as nat);
        if prev.spec_is_complete() {
            prev
        } else {
            QueueFamilyIndices {
                graphics_family: if graphics[n - 1] {
                    (n - 1) as i32
                } else {
                    prev.graphics_family
                },
                present_family: if present[n - 1] {
                    (n - 1) as i32
                } else {
                    prev.present_family
                },
            }
        }
    }
}

/// Finds a graphics and a present queue family from what each family supports:
/// `supports_graphics[i]` and `supports_present[i]` describe family `i`.
pub fn find_queue_families(supports_graphics: &Vec<bool>, supports_present: &Vec<bool>) -> (r:
    QueueFamilyIndices)
    requires
        supports_graphics@.len() == supports_present@.len(),
        supports_graphics@.len() <= i32::MAX,
    ensures
        r == scan_queue_families(supports_graphics@, supports_present@, supports_graphics@.len()),
{
    let mut indices = QueueFamilyIndices::new();
    let n = supports_graphics.len();
    let mut i: usize = 0;
    while i < n
        invariant
            n == supports_graphics@.len(),
            n == supports_present@.len(),
            n <= i32::MAX,
            i <= n,
            indices == scan_queue_families(supports_graphics@, supports_present@, i as nat),
            !indices.spec_is_complete(),
        decreases n - i,
    {
        if supports_graphics[i] {
            indices.graphics_family = i as i32;
        }
        if supports_present[i] {
            indices.present_family = i as i32;
        }
        assert(indices == scan_queue_families(supports_graphics@, supports_present@, (i + 1) as nat));
        if indices.is_complete() {
            proof {
                lemma_scan_stays_complete(supports_graphics@, supports_present@, (i + 1) as nat);
            }
            return indices;
        }
        i = i + 1;
    }
    indices
}

proof fn lemma_scan_stays_complete(graphics: Seq<bool>, present: Seq<bool>, n: nat)
    requires
        scan_queue_families(graphics, present, n).spec_is_complete(),
    ensures
        forall|k: nat|
            n <= k ==> #[trigger] scan_queue_families(graphics, present, k)
                == scan_queue_families(graphics, present, n),
{
    assert forall|k: nat| n <= k implies #[trigger] scan_queue_families(graphics, present, k)
        == scan_queue_families(graphics, present, n) by {
        lemma_scan_stays_complete_at(graphics, present, n, k);
    }
}

proof fn lemma_scan_stays_complete_at(graphics: Seq<bool>, present: Seq<bool>, n: nat, k: nat)
    requires
        scan_queue_families(graphics, present, n).spec_is_complete(),
        n <= k,
    ensures
        scan_queue_families(graphics, present, k) == scan_queue_families(graphics, present, n),
    decreases k - n,
{
    if k > n {
        lemma_scan_stays_complete_at(graphics, present, n, (k - 1) as nat);
    }
}

proof fn lemma_scan_indices(graphics: Seq<bool>, present: Seq<bool>, n: nat)
    requires
        n <= graphics.len(),
        n <= present.len(),
        n <= i32::MAX,
    ensures
        ({
            let r = scan_queue_families(graphics, present, n);
            &&& r.graphics_family == -1 || (0 <= r.graphics_family < n
                && graphics[r.graphics_family as int])
            &&& r.present_family == -1 || (0 <= r.present_family < n
                && present[r.present_family as int])
            &&& r.graphics_family == -1 ==> forall|i: int| 0 <= i < n ==> !graphics[i]
            &&& r.present_family == -1 ==> forall|i: int| 0 <= i < n ==> !present[i]
        }),
    decreases n,
{
    if n > 0 {
        lemma_scan_indices(graphics, present, (n - 1) as nat);
    }
}

/// The search finds a family of each kind exactly when some family supports graphics
/// and some family supports presentation.
pub proof fn lemma_queue_families_complete_iff(graphics: Seq<bool>, present: Seq<bool>)
    requires
        graphics.len() == present.len(),
        graphics.len() <= i32::MAX,
    ensures
        scan_queue_families(graphics, present, graphics.len()).spec_is_complete() <==> ((exists|
            i: int,
        | 0 <= i < graphics.len() && graphics[i]) && (exists|j: int|
            0 <= j < present.len() && present[j])),
{
    lemma_scan_indices(graphics, present, graphics.len());
    let r = scan_queue_families(graphics, present, graphics.len());
    if r.spec_is_complete() {
        assert(graphics[r.graphics_family as int]);
        assert(present[r.present_family as int]);
    }
}

/// Every family the search reports supports what it was chosen for.
pub proof fn lemma_queue_families_supported(graphics: Seq<bool>, present: Seq<bool>)
    requires
        graphics.len() == present.len(),
        graphics.len() <= i32::MAX,
    ensures
        ({
            let r = scan_queue_families(graphics, present, graphics.len());
            &&& r.graphics_family >= 0 ==> r.graphics_family < graphics.len()
                && graphics[r.graphics_family as int]
            &&& r.present_family >= 0 ==> r.present_family < present.len()
                && present[r.present_family as int]
            &&& r.graphics_family >= -1
            &&& r.present_family >= -1
        }),
{
    lemma_scan_indices(graphics, present, graphics.len());
}

/// Whether a physical device can be used: it has both queue families, supports the
/// required device extensions, and (given those) offers at least one surface format
/// and one present mode.
pub open spec fn spec_is_device_suitable(
    indices: QueueFamilyIndices,
    extensions_supported: bool,
    num_formats: nat,
    num_present_modes: nat,
) -> bool {
    indices.spec_is_complete() && extensions_supported && num_formats > 0 && num_present_modes > 0
}

/// Decides whether a physical device is suitable. The surface formats and present modes
/// are only asked for when the extensions are supported; their counts are ignored otherwise.
pub fn is_device_suitable(
    indices: &QueueFamilyIndices,
    extensions_supported: bool,
    num_formats: usize,
    num_present_modes: usize,
) -> (r: bool)
    ensures
        r == spec_is_device_suitable(
            *indices,
            extensions_supported,
            num_formats as nat,
            num_present_modes as nat,
        ),
{
    let swap_chain_adequate = if extensions_supported {
        num_formats > 0 && num_present_modes > 0
    } else {
        false
    };
    indices.is_complete() && extensions_supported && swap_chain_adequate
}

/// Picks the first suitable physical device; `suitable[i]` tells whether device `i` is.
pub fn pick_physical_device(suitable: &Vec<bool>) -> (r: Result<usize, HobbyError>)
    ensures
        match r {
            Ok(i) => is_first_true(suitable@, i as int),
            Err(e) => e == HobbyError::NoSuitablePhysicalDevice && forall|j: int|
                0 <= j < suitable@.len() ==> !suitable@[j],
        },
{
    match first_true(suitable) {
        Some(i) => Ok(i),
        None => Err(HobbyError::NoSuitablePhysicalDevice),
    }
}

/// The queue families to create queues on: the graphics family, then the present
/// family if it differs. No family occurs twice.
pub fn unique_queue_families(indices: &QueueFamilyIndices) -> (r: Vec<i32>)
    ensures
        indices.graphics_family == indices.present_family ==> r@ == seq![indices.graphics_family],
        indices.graphics_family != indices.present_family ==> r@ == seq![
            indices.graphics_family,
            indices.present_family,
        ],
{
    let mut families: Vec<i32> = Vec::new();
    families.push(indices.graphics_family);
    if indices.present_family != indices.graphics_family {
        families.push(indices.present_family);
    }
    families
}

/// The validation layers asked for.
pub fn validation_layers() -> (r: Vec<String>)
    ensures
        r@.len() == 1,
        r@[0]@ == "VK_LAYER_LUNARG_standard_validation"@,
{
    let mut layers: Vec<String> = Vec::new();
    layers.push(String::from_str("VK_LAYER_LUNARG_standard_validation"));
    layers
}

/// The device extensions a suitable device must support.
pub fn device_extensions() -> (r: Vec<String>)
    ensures
        r@.len() == 1,
        r@[0]@ == "VK_KHR_swapchain"@,
{
    let mut extensions: Vec<String> = Vec::new();
    extensions.push(String::from_str("VK_KHR_swapchain"));
    extensions
}

/// Whether every validation layer is among the available layers.
pub fn check_validation_layer_support(available_layers: &Vec<String>) -> (r: bool)
    ensures
        r == names_contain(available_layers@, "VK_LAYER_LUNARG_standard_validation"@),
{
    let required = validation_layers();
    let r = contains_all(available_layers, &required);
    assert(r == names_contain(available_layers@, required@[0]@));
    r
}

/// Whether every required device extension is among the extensions a device supports.
pub fn check_device_extension_support(available_extensions: &Vec<String>) -> (r: bool)
    ensures
        r == names_contain(available_extensions@, "VK_KHR_swapchain"@),
{
    let required = device_extensions();
    let r = contains_all(available_extensions, &required);
    assert(r == names_contain(available_extensions@, required@[0]@));
    r
}

/// The layers the instance is created with. Creation is refused when validation layers
/// are enabled and the layer check comes back `true`; in every other case the instance
/// is created without explicit layers.
pub fn instance_layers(layer_check: bool) -> (r: Result<Vec<String>, HobbyError>)
    ensures
        ENABLE_VALIDATION_LAYERS && layer_check ==> r == Err::<Vec<String>, HobbyError>(
            HobbyError::ValidationLayersUnavailable,
        ),
        !(ENABLE_VALIDATION_LAYERS && layer_check) ==> (r matches Ok(layers) && layers@.len()
            == 0),
{
    if ENABLE_VALIDATION_LAYERS && layer_check {
        Err(HobbyError::ValidationLayersUnavailable)
    } else {
        Ok(Vec::new())
    }
}

/// The instance extensions: those the window system needs, with the debug report
/// extension added when validation layers are enabled.
pub fn get_required_extensions(window_extensions: &Vec<String>) -> (r: Vec<String>)
    ensures
        r@.len() == window_extensions@.len() + (if ENABLE_VALIDATION_LAYERS && !names_contain(
            window_extensions@,
            "VK_EXT_debug_report"@,
        ) {
            1int
        } else {
            0int
        }),
        r@.subrange(0, window_extensions@.len() as int) == window_extensions@,
        r@.len() > window_extensions@.len() ==> r@[window_extensions@.len() as int]@
            == "VK_EXT_debug_report"@,
        forall|name: Seq<char>|
            names_contain(r@, name) <==> (names_contain(window_extensions@, name) || (
            ENABLE_VALIDATION_LAYERS && name == "VK_EXT_debug_report"@)),
{
    let mut extensions = window_extensions.clone();
    assert(extensions@ == window_extensions@);
    if ENABLE_VALIDATION_LAYERS && !crate::search::contains_name(
        &extensions,
        "VK_EXT_debug_report",
    ) {
        let ghost before = extensions@;
        extensions.push(String::from_str("VK_EXT_debug_report"));
        assert forall|name: Seq<char>|
            names_contain(extensions@, name) <==> (names_contain(before, name) || name
                == "VK_EXT_debug_report"@) by {
            if names_contain(extensions@, name) {
                let i = choose|i: int| 0 <= i < extensions@.len() && extensions@[i]@ == name;
                if i < before.len() {
                    assert(before[i]@ == name);
                }
            }
            if names_contain(before, name) {
                let i = choose|i: int| 0 <= i < before.len() && before[i]@ == name;
                assert(extensions@[i]@ == name);
            }
            if name == "VK_EXT_debug_report"@ {
                assert(extensions@[before.len() as int]@ == name);
            }
        }
        assert(extensions@.subrange(0, before.len() as int) =~= before);
    } else {
        assert(extensions@.subrange(0, window_extensions@.len() as int) =~= extensions@);
    }
    extensions
}

} // verus!
