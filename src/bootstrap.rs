//! Instance configuration: layer availability, required extensions and the
//! settings handed to instance construction.
use vstd::prelude::*;

use crate::settings::{
    debug_utils_extension, debug_utils_extension_spec, names_of, requested_layer_names,
    requested_layers,
};

verus! {

/// Identity of the application, as reported to the graphics runtime.
pub struct AppInfo {
    pub name: String,
    pub major: u32,
    pub minor: u32,
    pub patch: u32,
}

/// What instance construction is asked for.
pub struct InstanceConfig {
    pub application: AppInfo,
    /// Names of the instance extensions to enable.
    pub enabled_extensions: Vec<String>,
    /// Names of the layers to enable; empty unless diagnostics are on and every
    /// requested layer is available.
    pub enabled_layers: Vec<String>,
}

/// The decisions taken before the instance is constructed.
pub struct StartupPlan {
    pub instance: InstanceConfig,
    /// Diagnostics were asked for but a requested layer is missing: the caller
    /// reports it and goes on without the layers.
    pub warn_missing_layers: bool,
    /// Whether a debug messenger is to be attached once the instance exists.
    pub attach_debug_channel: bool,
}

/// True when every requested layer is among the available ones.
pub open spec fn layers_supported(available: Seq<Seq<char>>) -> bool {
    forall|k: int| 0 <= k < requested_layers().len() ==> available.contains(#[trigger] requested_layers()[k])
}

/// The extension names to request: those the platform mandates, followed by the
/// debug extension when diagnostics are enabled and the platform has not already
/// listed it.
pub open spec fn required_extension_names(platform: Seq<Seq<char>>, diagnostics: bool) -> Seq<Seq<char>> {
    if diagnostics && !platform.contains(debug_utils_extension_spec()) {
        platform.push(debug_utils_extension_spec())
    } else {
        platform
    }
}

/// The layers to enable on the instance.
pub open spec fn enabled_layer_names(available: Seq<Seq<char>>, diagnostics: bool) -> Seq<Seq<char>> {
    if diagnostics && layers_supported(available) {
        requested_layers()
    } else {
        Seq::empty()
    }
}

/// Whether `name` is one of `names`.
pub fn contains_name(names: &Vec<String>, name: &String) -> (r: bool)
    ensures
        r == names_of(names@).contains(name@),
{
    let mut i: usize = 0;
    while i < names.len()
        invariant
            0 <= i <= names.len(),
            forall|j: int| 0 <= j < i ==> (#[trigger] names@[j])@ != name@,
        decreases names.len() - i,
    {
        if names[i] == *name {
            proof {
                assert(names_of(names@)[i as int] == name@);
            }
            return true;
        }
        i += 1;
    }
    proof {
        assert forall|j: int| 0 <= j < names_of(names@).len() implies names_of(names@)[j] != name@ by {
            assert(names@[j]@ != name@);
        }
    }
    false
}

/// Whether every requested validation layer is among the `available` layer names.
pub fn check_validation_layer_support(available: &Vec<String>) -> (r: bool)
    ensures
        r == layers_supported(names_of(available@)),
{
    let requested = requested_layer_names();
    let mut i: usize = 0;
    while i < requested.len()
        invariant
            0 <= i <= requested.len(),
            names_of(requested@) == requested_layers(),
            forall|k: int| 0 <= k < i ==> names_of(available@).contains(#[trigger] requested_layers()[k]),
        decreases requested.len() - i,
    {
        if !contains_name(available, &requested[i]) {
            proof {
                assert(names_of(requested@)[i as int] == requested[i as int]@);
            }
            return false;
        }
        proof {
            assert(names_of(requested@)[i as int] == requested[i as int]@);
        }
        i += 1;
    }
    true
}

/// A copy of `v`, string by string.
fn copy_names(v: &Vec<String>) -> (r: Vec<String>)
    ensures
        r@ == v@,
{
    let mut r: Vec<String> = Vec::new();
    let mut i: usize = 0;
    while i < v.len()
        invariant
            0 <= i <= v.len(),
            r@ == v@.take(i as int),
        decreases v.len() - i,
    {
        r.push(v[i].clone());
        proof {
            assert(r@ =~= v@.take(i + 1));
        }
        i += 1;
    }
    proof {
        assert(v@.take(v.len() as int) =~= v@);
    }
    r
}

/// The instance extensions to request, given those the platform mandates for
/// presenting to a window.
pub fn get_required_extensions(platform: &Vec<String>, diagnostics: bool) -> (r: Vec<String>)
    ensures
        names_of(r@) == required_extension_names(names_of(platform@), diagnostics),
        forall|k: int| 0 <= k < platform@.len() ==> names_of(r@).contains(#[trigger] platform@[k]@),
        diagnostics ==> names_of(r@).contains(debug_utils_extension_spec()),
        !names_of(platform@).contains(debug_utils_extension_spec()) ==> (names_of(r@).contains(
            debug_utils_extension_spec(),
        ) <==> diagnostics),
{
    let mut r = copy_names(platform);
    let debug = debug_utils_extension();
    if diagnostics && !contains_name(platform, &debug) {
        r.push(debug);
        proof {
            assert(names_of(r@) =~= names_of(platform@).push(debug_utils_extension_spec()));
            assert(names_of(r@)[platform@.len() as int] == debug_utils_extension_spec());
        }
    }
    proof {
        assert forall|k: int| 0 <= k < platform@.len() implies names_of(r@).contains(#[trigger] platform@[k]@) by {
            assert(names_of(r@)[k] == platform@[k]@);
        }
    }
    r
}

/// Decides how the instance is constructed, from the diagnostics setting, the
/// layers the runtime reports and the extensions the platform mandates.
pub fn plan_startup(
    application: AppInfo,
    diagnostics: bool,
    available_layers: &Vec<String>,
    platform_extensions: &Vec<String>,
) -> (r: StartupPlan)
    ensures
        r.instance.application == application,
        names_of(r.instance.enabled_extensions@) == required_extension_names(
            names_of(platform_extensions@),
            diagnostics,
        ),
        names_of(r.instance.enabled_layers@) == enabled_layer_names(
            names_of(available_layers@),
            diagnostics,
        ),
        r.warn_missing_layers == (diagnostics && !layers_supported(names_of(available_layers@))),
        r.attach_debug_channel == diagnostics,
        !diagnostics ==> r.instance.enabled_layers@.len() == 0 && !r.attach_debug_channel,
        diagnostics && layers_supported(names_of(available_layers@)) ==> names_of(
            r.instance.enabled_layers@,
        ) == requested_layers(),
        diagnostics && !layers_supported(names_of(available_layers@)) ==> r.instance.enabled_layers@.len()
            == 0 && r.warn_missing_layers,
{
    let supported = diagnostics && check_validation_layer_support(available_layers);
    let enabled_extensions = get_required_extensions(platform_extensions, diagnostics);
    let enabled_layers = if supported {
        requested_layer_names()
    } else {
        let empty: Vec<String> = Vec::new();
        proof {
            assert(names_of(empty@) =~= Seq::<Seq<char>>::empty());
        }
        empty
    };
    StartupPlan {
        instance: InstanceConfig { application, enabled_extensions, enabled_layers },
        warn_missing_layers: diagnostics && !supported,
        attach_debug_channel: diagnostics,
    }
}

} // verus!
