use cl_picker::flow::{resolve_device_choice, resolve_env_config, resolve_platform_choice,
    DeviceChoice, PlatformChoice};
use cl_picker::pattern::PlatformMatcher;
use cl_picker::platform_and_device::{fuzzy_find_platform, PlatformOrDevice, PlatformReport};

fn reports() -> Vec<PlatformReport> {
    vec![
        PlatformReport { id: 1, name: String::from("NVIDIA CUDA") },
        PlatformReport { id: 2, name: String::from("Intel(R) OpenCL") },
        PlatformReport { id: 3, name: String::from("Portable Computing Language") },
    ]
}

#[test]
fn invalid_pattern_is_rejected_before_any_query() {
    assert!(PlatformMatcher::compile("[").is_none());
    assert!(PlatformMatcher::compile("(unclosed").is_none());
}

#[test]
fn pattern_matching_ignores_case() {
    let m = PlatformMatcher::compile("nvidia").unwrap();
    assert!(m.is_match("NVIDIA CUDA"));
    assert!(m.is_match("nVidia something"));
    assert!(!m.is_match("Intel(R) OpenCL"));
}

#[test]
fn fuzzy_find_keeps_exactly_the_matching_platforms() {
    let m = PlatformMatcher::compile("NVIDIA").unwrap();
    let found = fuzzy_find_platform(&m, &reports());
    assert_eq!(found, vec![PlatformOrDevice::Plat(1, String::from("NVIDIA CUDA"))]);

    let m = PlatformMatcher::compile("OpenCL").unwrap();
    let found = fuzzy_find_platform(&m, &reports());
    assert_eq!(found, vec![PlatformOrDevice::Plat(2, String::from("Intel(R) OpenCL"))]);

    let m = PlatformMatcher::compile("no such vendor").unwrap();
    assert!(fuzzy_find_platform(&m, &reports()).is_empty());
}

#[test]
fn empty_pattern_matches_all_platforms() {
    let m = PlatformMatcher::compile("").unwrap();
    let found = fuzzy_find_platform(&m, &reports());
    assert_eq!(found.len(), 3);
    assert_eq!(found[2], PlatformOrDevice::Plat(3, String::from("Portable Computing Language")));
}

#[test]
fn single_match_is_auto_selected_without_prompting() {
    let one = vec![PlatformOrDevice::Plat(1, String::from("NVIDIA CUDA"))];
    match resolve_platform_choice(one) {
        PlatformChoice::Auto(p) => {
            assert_eq!(p, PlatformOrDevice::Plat(1, String::from("NVIDIA CUDA")));
        },
        _ => panic!("one match must be auto-selected"),
    }
}

#[test]
fn several_matches_go_to_the_prompter_with_all_options() {
    let two = vec![
        PlatformOrDevice::Plat(1, String::from("NVIDIA CUDA")),
        PlatformOrDevice::Plat(2, String::from("Intel(R) OpenCL")),
    ];
    match resolve_platform_choice(two.clone()) {
        PlatformChoice::Prompt(options) => assert_eq!(options, two),
        _ => panic!("several matches must be prompted for"),
    }
}

#[test]
fn no_match_is_fatal() {
    assert!(matches!(resolve_platform_choice(Vec::new()), PlatformChoice::NoneFound));
}

#[test]
fn configured_device_short_circuits_enumeration() {
    assert_eq!(resolve_device_choice(Some(9)), DeviceChoice::Configured(9));
}

#[test]
fn missing_device_leads_to_enumeration_and_prompt() {
    assert_eq!(resolve_device_choice(None), DeviceChoice::Enumerate);
}

#[test]
fn env_config_defaults() {
    let c = resolve_env_config(None, None);
    assert_eq!(c.platform_pattern, "");
    assert_eq!(c.device_id, None);

    let c = resolve_env_config(Some(String::from("amd")), Some(7));
    assert_eq!(c.platform_pattern, "amd");
    assert_eq!(c.device_id, Some(7));
}
