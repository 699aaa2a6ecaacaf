use pandora_launcher::instance::{
    ContentUpdateStatus, InstanceContentID, InstanceID, InstanceStatus,
};
use pandora_launcher::instance_config::{
    is_blank, is_default_jvm_binary_configuration, is_default_jvm_flags_configuration,
    is_default_linux_wrapper_configuration, is_default_memory_configuration,
    is_default_system_libraries_configuration, InstanceJvmBinaryConfiguration,
    InstanceJvmFlagsConfiguration, InstanceLinuxWrapperConfiguration, InstanceMemoryConfiguration,
    InstanceSystemLibrariesConfiguration, LwjglLibraryPath,
};

#[test]
fn dangling_ids_name_nothing() {
    let id = InstanceID::dangling();
    assert_eq!(id, InstanceID { index: usize::MAX, generation: usize::MAX });
    let id = InstanceContentID::dangling();
    assert_eq!(id, InstanceContentID { index: usize::MAX, generation: usize::MAX });
    assert!(InstanceID { index: 1, generation: 9 } < InstanceID { index: 2, generation: 0 });
    assert_ne!(InstanceStatus::Running, InstanceStatus::Launching);
    assert_ne!(InstanceStatus::NotRunning, InstanceStatus::Launching);
}

#[test]
fn only_found_updates_can_be_installed() {
    assert!(ContentUpdateStatus::Modrinth.can_update());
    let others = [
        ContentUpdateStatus::Unknown,
        ContentUpdateStatus::ManualInstall,
        ContentUpdateStatus::ErrorNotFound,
        ContentUpdateStatus::ErrorInvalidHash,
        ContentUpdateStatus::AlreadyUpToDate,
    ];
    for status in others {
        assert!(!status.can_update());
    }
}

#[test]
fn memory_setting_is_default_when_off_with_default_bounds() {
    assert_eq!(InstanceMemoryConfiguration::DEFAULT_MIN, 512);
    assert_eq!(InstanceMemoryConfiguration::DEFAULT_MAX, 4096);
    let default = InstanceMemoryConfiguration::default();
    assert_eq!(default, InstanceMemoryConfiguration { enabled: false, min: 512, max: 4096 });
    assert!(is_default_memory_configuration(&None));
    assert!(is_default_memory_configuration(&Some(default)));
    assert!(!is_default_memory_configuration(&Some(InstanceMemoryConfiguration {
        enabled: true,
        ..default
    })));
    assert!(!is_default_memory_configuration(&Some(InstanceMemoryConfiguration {
        min: 513,
        ..default
    })));
    assert!(!is_default_memory_configuration(&Some(InstanceMemoryConfiguration {
        max: 4095,
        ..default
    })));
}

#[test]
fn blank_text_holds_only_ascii_white_space() {
    assert!(is_blank(""));
    assert!(is_blank(" \t\n\r\x0C  "));
    assert!(!is_blank(" -Xmx2G "));
    assert!(!is_blank("\u{0B}"));
    assert!(!is_blank("\u{A0}"));
    assert!(!is_blank("\u{2003}"));
    assert!(!is_blank("  é"));
}

#[test]
fn flags_setting_is_default_when_off_and_blank() {
    assert!(is_default_jvm_flags_configuration(&None));
    assert!(is_default_jvm_flags_configuration(&Some(InstanceJvmFlagsConfiguration::default())));
    assert_eq!(
        InstanceJvmFlagsConfiguration::default(),
        InstanceJvmFlagsConfiguration { enabled: false, flags: String::new() }
    );
    assert!(is_default_jvm_flags_configuration(&Some(InstanceJvmFlagsConfiguration {
        enabled: false,
        flags: "  \t ".to_string(),
    })));
    assert!(!is_default_jvm_flags_configuration(&Some(InstanceJvmFlagsConfiguration {
        enabled: true,
        flags: String::new(),
    })));
    assert!(!is_default_jvm_flags_configuration(&Some(InstanceJvmFlagsConfiguration {
        enabled: false,
        flags: " -Xss1M".to_string(),
    })));
}

#[test]
fn binary_setting_is_default_when_off_without_a_path() {
    assert!(is_default_jvm_binary_configuration(&None));
    assert!(is_default_jvm_binary_configuration(&Some(InstanceJvmBinaryConfiguration::default())));
    assert_eq!(
        InstanceJvmBinaryConfiguration::default(),
        InstanceJvmBinaryConfiguration { enabled: false, path: None }
    );
    assert!(!is_default_jvm_binary_configuration(&Some(InstanceJvmBinaryConfiguration {
        enabled: true,
        path: None,
    })));
    assert!(!is_default_jvm_binary_configuration(&Some(InstanceJvmBinaryConfiguration {
        enabled: false,
        path: Some("/usr/bin/java".to_string()),
    })));
}

#[test]
fn wrapper_setting_is_default_with_only_the_discrete_gpu() {
    let default = InstanceLinuxWrapperConfiguration::default();
    assert_eq!(
        default,
        InstanceLinuxWrapperConfiguration {
            use_mangohud: false,
            use_gamemode: false,
            use_discrete_gpu: true,
        }
    );
    assert!(is_default_linux_wrapper_configuration(&None));
    assert!(is_default_linux_wrapper_configuration(&Some(default)));
    assert!(!is_default_linux_wrapper_configuration(&Some(InstanceLinuxWrapperConfiguration {
        use_mangohud: true,
        ..default
    })));
    assert!(!is_default_linux_wrapper_configuration(&Some(InstanceLinuxWrapperConfiguration {
        use_gamemode: true,
        ..default
    })));
    assert!(!is_default_linux_wrapper_configuration(&Some(InstanceLinuxWrapperConfiguration {
        use_discrete_gpu: false,
        ..default
    })));
}

#[test]
fn libraries_setting_is_default_when_both_paths_are_automatic() {
    assert!(is_default_system_libraries_configuration(&None));
    assert!(is_default_system_libraries_configuration(&Some(
        InstanceSystemLibrariesConfiguration::default()
    )));
    assert!(is_default_system_libraries_configuration(&Some(
        InstanceSystemLibrariesConfiguration {
            override_glfw: true,
            glfw: LwjglLibraryPath::Auto,
            override_openal: true,
            openal: LwjglLibraryPath::Auto,
        }
    )));
    assert!(!is_default_system_libraries_configuration(&Some(
        InstanceSystemLibrariesConfiguration {
            override_glfw: false,
            glfw: LwjglLibraryPath::Explicit("/lib/libglfw.so".to_string()),
            override_openal: false,
            openal: LwjglLibraryPath::Auto,
        }
    )));
    assert!(!is_default_system_libraries_configuration(&Some(
        InstanceSystemLibrariesConfiguration {
            override_glfw: false,
            glfw: LwjglLibraryPath::Auto,
            override_openal: false,
            openal: LwjglLibraryPath::AutoPreferred("/lib/libopenal.so".to_string()),
        }
    )));
    assert_eq!(LwjglLibraryPath::default(), LwjglLibraryPath::Auto);
}

#[test]
fn library_path_is_chosen_by_its_kind() {
    let found = Some("/usr/lib/libglfw.so".to_string());
    assert_eq!(LwjglLibraryPath::Auto.get_or_auto(&found, false), found);
    assert_eq!(LwjglLibraryPath::Auto.get_or_auto(&found, true), found);
    assert_eq!(LwjglLibraryPath::Auto.get_or_auto(&None, true), None);
    let preferred = || LwjglLibraryPath::AutoPreferred("/opt/libglfw.so".to_string());
    assert_eq!(preferred().get_or_auto(&found, true), Some("/opt/libglfw.so".to_string()));
    assert_eq!(preferred().get_or_auto(&found, false), found);
    assert_eq!(preferred().get_or_auto(&None, false), None);
    let explicit = || LwjglLibraryPath::Explicit("/x/libglfw.so".to_string());
    assert_eq!(explicit().get_or_auto(&found, false), Some("/x/libglfw.so".to_string()));
    assert_eq!(explicit().get_or_auto(&None, true), Some("/x/libglfw.so".to_string()));
}
