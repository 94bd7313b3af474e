//! Names of layers and extensions, and the settings of the window.
use vstd::prelude::*;

verus! {

/// Logical width of the application window.
pub const WIDTH: u32 = 800;

/// Logical height of the application window.
pub const HEIGHT: u32 = 600;

/// The names held by a list of strings.
pub open spec fn names_of(v: Seq<String>) -> Seq<Seq<char>> {
    v.map_values(|s: String| s@)
}

/// Name of the standard validation layer.
pub open spec fn validation_layer_spec() -> Seq<char> {
    "VK_LAYER_LUNARG_standard_validation"@
}

/// Name of the instance extension that carries debug messages.
pub open spec fn debug_utils_extension_spec() -> Seq<char> {
    "VK_EXT_debug_utils"@
}

/// The layers requested when diagnostics are enabled.
pub open spec fn requested_layers() -> Seq<Seq<char>> {
    seq![validation_layer_spec()]
}

/// Title of the application window.
pub fn window_title() -> (r: String)
    ensures
        r@ == "Vulkan"@,
{
    "Vulkan".to_owned()
}

/// Name of the instance extension that carries debug messages.
pub fn debug_utils_extension() -> (r: String)
    ensures
        r@ == debug_utils_extension_spec(),
{
    "VK_EXT_debug_utils".to_owned()
}

/// The layers requested when diagnostics are enabled.
pub fn requested_layer_names() -> (r: Vec<String>)
    ensures
        names_of(r@) == requested_layers(),
{
    let mut r: Vec<String> = Vec::new();
    r.push("VK_LAYER_LUNARG_standard_validation".to_owned());
    proof {
        assert(names_of(r@) =~= requested_layers());
    }
    r
}

} // verus!
