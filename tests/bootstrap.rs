use hello_triangle::bootstrap::{
    check_validation_layer_support, contains_name, get_required_extensions, plan_startup, AppInfo,
};
use hello_triangle::settings::{debug_utils_extension, requested_layer_names, window_title, HEIGHT, WIDTH};

const LAYER: &str = "VK_LAYER_LUNARG_standard_validation";
const SURFACE: &str = "VK_KHR_surface";
const DEBUG: &str = "VK_EXT_debug_utils";

fn names(v: &[&str]) -> Vec<String> {
    v.iter().map(|s| s.to_string()).collect()
}

fn info() -> AppInfo {
    AppInfo { name: "triangle".to_string(), major: 1, minor: 2, patch: 3 }
}

#[test]
fn fixed_settings() {
    assert_eq!(WIDTH, 800);
    assert_eq!(HEIGHT, 600);
    assert_eq!(window_title(), "Vulkan");
    assert_eq!(debug_utils_extension(), DEBUG);
    assert_eq!(requested_layer_names(), names(&[LAYER]));
}

#[test]
fn contains_name_finds_only_listed_names() {
    let v = names(&["a", "bc", LAYER]);
    assert!(contains_name(&v, &LAYER.to_string()));
    assert!(contains_name(&v, &"a".to_string()));
    assert!(!contains_name(&v, &"b".to_string()));
    assert!(!contains_name(&Vec::new(), &"a".to_string()));
}

#[test]
fn layer_support_needs_the_requested_layer() {
    assert!(check_validation_layer_support(&names(&[LAYER])));
    assert!(check_validation_layer_support(&names(&["VK_LAYER_other", LAYER])));
    assert!(!check_validation_layer_support(&names(&[])));
    assert!(!check_validation_layer_support(&names(&["VK_LAYER_KHRONOS_validation"])));
}

#[test]
fn required_extensions_without_diagnostics() {
    let platform = names(&[SURFACE, "VK_KHR_xlib_surface"]);
    assert_eq!(get_required_extensions(&platform, false), platform);
    assert_eq!(get_required_extensions(&Vec::new(), false), Vec::<String>::new());
}

#[test]
fn required_extensions_with_diagnostics() {
    let platform = names(&[SURFACE, "VK_KHR_xlib_surface"]);
    assert_eq!(
        get_required_extensions(&platform, true),
        names(&[SURFACE, "VK_KHR_xlib_surface", DEBUG])
    );
    assert_eq!(get_required_extensions(&Vec::new(), true), names(&[DEBUG]));
}

#[test]
fn required_extensions_do_not_repeat_the_debug_extension() {
    let platform = names(&[DEBUG, SURFACE]);
    assert_eq!(get_required_extensions(&platform, true), platform);
    assert_eq!(get_required_extensions(&platform, false), platform);
}

#[test]
fn diagnostics_disabled_ignores_available_layers() {
    let plan = plan_startup(info(), false, &names(&[LAYER]), &names(&[SURFACE]));
    assert!(plan.instance.enabled_layers.is_empty());
    assert!(!plan.attach_debug_channel);
    assert!(!plan.warn_missing_layers);
    assert_eq!(plan.instance.enabled_extensions, names(&[SURFACE]));
}

#[test]
fn scenario_diagnostics_disabled() {
    let plan = plan_startup(info(), false, &names(&[]), &names(&[SURFACE]));
    assert_eq!(plan.instance.enabled_extensions, names(&[SURFACE]));
    assert!(plan.instance.enabled_layers.is_empty());
    assert!(!plan.attach_debug_channel);
    assert!(!plan.warn_missing_layers);
    assert_eq!(plan.instance.application.name, "triangle");
    assert_eq!(
        (plan.instance.application.major, plan.instance.application.minor, plan.instance.application.patch),
        (1, 2, 3)
    );
}

#[test]
fn scenario_diagnostics_with_layer() {
    let plan = plan_startup(info(), true, &names(&[LAYER]), &names(&[SURFACE]));
    assert_eq!(plan.instance.enabled_extensions, names(&[SURFACE, DEBUG]));
    assert_eq!(plan.instance.enabled_layers, names(&[LAYER]));
    assert!(plan.attach_debug_channel);
    assert!(!plan.warn_missing_layers);
}

#[test]
fn scenario_diagnostics_without_layer() {
    let plan = plan_startup(info(), true, &names(&[]), &names(&[SURFACE]));
    assert!(plan.warn_missing_layers);
    assert!(plan.instance.enabled_layers.is_empty());
    assert_eq!(plan.instance.enabled_extensions, names(&[SURFACE, DEBUG]));
    assert!(plan.attach_debug_channel);
}
