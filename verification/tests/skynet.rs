use sd_core::skynet::{
    binding_location, environment_config, execution_providers, lib_name, log_level,
    relative_library_path, separator, ExecutionProvider, LogLevel, TargetOs,
};

#[test]
fn library_locations_per_system() {
    assert_eq!(binding_location(TargetOs::Windows), ".");
    assert_eq!(binding_location(TargetOs::MacOs), "../Frameworks/Spacedrive.framework/Libraries");
    assert_eq!(binding_location(TargetOs::Ios), "../lib/spacedrive");
    assert_eq!(binding_location(TargetOs::Linux), "../lib/spacedrive");
    assert_eq!(binding_location(TargetOs::Android), "../lib/spacedrive");
}

#[test]
fn library_names_per_system() {
    assert_eq!(lib_name(TargetOs::Windows), "onnxruntime.dll");
    assert_eq!(lib_name(TargetOs::MacOs), "libonnxruntime.dylib");
    assert_eq!(lib_name(TargetOs::Ios), "libonnxruntime.dylib");
    assert_eq!(lib_name(TargetOs::Linux), "libonnxruntime.so");
    assert_eq!(lib_name(TargetOs::Android), "libonnxruntime.so");
}

#[test]
fn relative_paths_join_directory_and_name() {
    assert_eq!(separator(TargetOs::Windows), "\\");
    assert_eq!(separator(TargetOs::Linux), "/");
    assert_eq!(relative_library_path(TargetOs::Windows), ".\\onnxruntime.dll");
    assert_eq!(relative_library_path(TargetOs::Linux), "../lib/spacedrive/libonnxruntime.so");
    assert_eq!(
        relative_library_path(TargetOs::MacOs),
        "../Frameworks/Spacedrive.framework/Libraries/libonnxruntime.dylib"
    );
}

#[test]
fn log_level_follows_the_build() {
    assert_eq!(log_level(true), LogLevel::Verbose);
    assert_eq!(log_level(false), LogLevel::Info);
}

#[test]
fn execution_providers_per_system() {
    assert_eq!(
        execution_providers(TargetOs::MacOs),
        vec![ExecutionProvider::CoreMl, ExecutionProvider::Xnnpack]
    );
    assert_eq!(
        execution_providers(TargetOs::Ios),
        vec![ExecutionProvider::CoreMl, ExecutionProvider::Xnnpack]
    );
    assert_eq!(execution_providers(TargetOs::Windows), vec![ExecutionProvider::DirectMl]);
    assert_eq!(execution_providers(TargetOs::Linux), vec![ExecutionProvider::Xnnpack]);
    assert!(execution_providers(TargetOs::Android).is_empty());
}

#[test]
fn environment_is_named_spacedrive() {
    let config = environment_config(TargetOs::Linux, false);
    assert_eq!(config.name, "spacedrive");
    assert_eq!(config.log_level, LogLevel::Info);
    assert_eq!(config.execution_providers, vec![ExecutionProvider::Xnnpack]);
    let debug = environment_config(TargetOs::Windows, true);
    assert_eq!(debug.log_level, LogLevel::Verbose);
    assert_eq!(debug.execution_providers, vec![ExecutionProvider::DirectMl]);
}

#[test]
fn nodes_find_each_other_as_spacedrive() {
    assert_eq!(sd_core::p2p::SPACEDRIVE_APP_ID, "spacedrive");
}
