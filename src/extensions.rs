use vstd::prelude::*;

verus! {

/// Marker for the instance extensions that the library can enable, so that several of them
/// can be held together.
pub trait Extension {}

/// Relies on `ash::ext::debug_utils::NAME`, the C string `VK_EXT_debug_utils`.
#[verifier::external_body]
fn debug_utils_extension_name() -> (r: String)
    ensures
        r@ == "VK_EXT_debug_utils"@,
{
    ash::ext::debug_utils::NAME.to_string_lossy().into_owned()
}

/// Relies on `ash::khr::swapchain::NAME`, the C string `VK_KHR_swapchain`.
#[verifier::external_body]
fn swapchain_extension_name() -> (r: String)
    ensures
        r@ == "VK_KHR_swapchain"@,
{
    ash::khr::swapchain::NAME.to_string_lossy().into_owned()
}

pub open spec fn debug_utils_name() -> Seq<char> {
    "VK_EXT_debug_utils"@
}

pub open spec fn swapchain_name() -> Seq<char> {
    "VK_KHR_swapchain"@
}

pub open spec fn validation_layer_name() -> Seq<char> {
    "VK_LAYER_KHRONOS_validation"@
}

pub open spec fn views(s: Seq<String>) -> Seq<Seq<char>> {
    s.map_values(|x: String| x@)
}

/// The instance extensions that validation adds: the debug-utils extension when enabled.
pub fn get_names(enable_validations: bool) -> (r: Vec<String>)
    ensures
        enable_validations ==> views(r@) == seq![debug_utils_name()],
        !enable_validations ==> r@.len() == 0,
{
    let mut names: Vec<String> = Vec::new();
    if enable_validations {
        names.push(debug_utils_extension_name());
        assert(views(names@) =~= seq![debug_utils_name()]);
    }
    names
}

/// The layers to enable: the Khronos validation layer when validation is enabled.
pub fn get_validation_layers(enable_validations: bool) -> (r: Vec<&'static str>)
    ensures
        enable_validations ==> r@.len() == 1 && r@[0]@ == validation_layer_name(),
        !enable_validations ==> r@.len() == 0,
{
    if enable_validations {
        vec!["VK_LAYER_KHRONOS_validation"]
    } else {
        Vec::new()
    }
}

/// The instance extensions to enable: those the window system requires, followed by the
/// validation extensions when validation is enabled.
pub fn get_required_instance_extensions(
    required_extensions: Vec<String>,
    enable_validations: bool,
) -> (r: Vec<String>)
    ensures
        enable_validations ==> views(r@) == views(required_extensions@).push(debug_utils_name()),
        !enable_validations ==> views(r@) == views(required_extensions@),
{
    let mut names = required_extensions;
    let ghost before = names@;
    let mut extra = get_names(enable_validations);
    let ghost ex = extra@;
    names.append(&mut extra);
    proof {
        assert(names@ == before + ex);
        if enable_validations {
            assert(views(ex).len() == 1);
            assert(ex.len() == 1);
            assert(views(ex)[0] == ex[0]@);
            assert(names@[before.len() as int] == ex[0]);
            assert(views(names@) =~= views(before).push(debug_utils_name()));
        } else {
            assert(views(names@) =~= views(before));
        }
    }
    names
}

/// The device extensions every adapter must offer: the swapchain extension.
pub fn get_device_extension_names() -> (r: Vec<String>)
    ensures
        views(r@) == required_device_extensions(),
{
    let mut names: Vec<String> = Vec::new();
    names.push(swapchain_extension_name());
    assert(views(names@) =~= required_device_extensions());
    names
}

pub open spec fn required_device_extensions() -> Seq<Seq<char>> {
    seq![swapchain_name()]
}

pub open spec fn offers(names: Seq<String>, name: Seq<char>) -> bool {
    exists|j: int| 0 <= j < names.len() && (#[trigger] names[j])@ == name
}

/// Every required name is among the available ones.
pub open spec fn offers_all(available: Seq<String>, required: Seq<Seq<char>>) -> bool {
    forall|i: int| 0 <= i < required.len() ==> offers(available, #[trigger] required[i])
}

fn contains_name(names: &Vec<String>, name: &String) -> (r: bool)
    ensures
        r == offers(names@, name@),
{
    let mut j: usize = 0;
    while j < names.len()
        invariant
            j <= names@.len(),
            forall|k: int| 0 <= k < j ==> (#[trigger] names@[k])@ != name@,
        decreases names@.len() - j,
    {
        if names[j] == *name {
            return true;
        }
        j = j + 1;
    }
    false
}

/// True when every required extension name is among the available ones.
pub fn check_extensions_supported(available: &Vec<String>, required: &Vec<String>) -> (r: bool)
    ensures
        r == offers_all(available@, views(required@)),
{
    let mut i: usize = 0;
    while i < required.len()
        invariant
            i <= required@.len(),
            forall|k: int| 0 <= k < i ==> offers(available@, #[trigger] views(required@)[k]),
        decreases required@.len() - i,
    {
        if !contains_name(available, &required[i]) {
            assert(!offers(available@, views(required@)[i as int]));
            return false;
        }
        i = i + 1;
    }
    true
}

} // verus!
