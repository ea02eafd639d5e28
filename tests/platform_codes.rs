use game_library::{map_platform, IgdbPlatform, PlatformType};

#[test]
fn unmapped_code_nine_is_unknown() {
    assert_eq!(PlatformType::from_code(9), PlatformType::Unknown);
}

#[test]
fn codes_zero_to_six_map_in_order() {
    let kinds = [
        PlatformType::Unknown,
        PlatformType::Console,
        PlatformType::Arcade,
        PlatformType::Platform,
        PlatformType::OperatingSystem,
        PlatformType::PortableConsole,
        PlatformType::Computer,
    ];
    for (code, kind) in kinds.iter().enumerate() {
        assert_eq!(PlatformType::from_code(code as i32), *kind);
        assert_eq!(kind.code(), code as i32);
    }
}

#[test]
fn negative_and_large_codes_are_unknown() {
    assert_eq!(PlatformType::from_code(-1), PlatformType::Unknown);
    assert_eq!(PlatformType::from_code(7), PlatformType::Unknown);
    assert_eq!(PlatformType::from_code(i32::MAX), PlatformType::Unknown);
}

#[test]
fn platform_record_maps_with_missing_kind_as_unknown() {
    let p = map_platform(IgdbPlatform { id: 6, name: "PC".to_string(), generation: None, platform_type: None });
    assert_eq!(p.id, 6);
    assert_eq!(p.name, "PC");
    assert_eq!(p.platform_type, PlatformType::Unknown);
    let p = map_platform(IgdbPlatform { id: 48, name: "PS4".to_string(), generation: Some(8), platform_type: Some(1) });
    assert_eq!(p.generation, Some(8));
    assert_eq!(p.platform_type, PlatformType::Console);
}
