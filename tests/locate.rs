use guest_binding::locate::{
    artifact_path, crate_dir_candidate, is_valid_binding_name, locate, manifest_path,
    ArtifactLayout, Profile,
};
use guest_binding::manifest::{crate_name_from_manifest, ResolutionError};
use guest_binding::path::{is_absolute, join_path};

#[test]
fn join_relative_inserts_separator() {
    assert_eq!(join_path("/ws/host", "guest"), "/ws/host/guest");
}

#[test]
fn join_keeps_existing_separator() {
    assert_eq!(join_path("/ws/host/", "guest"), "/ws/host/guest");
}

#[test]
fn join_absolute_replaces_base() {
    assert_eq!(join_path("/ws/host", "/opt/guest"), "/opt/guest");
}

#[test]
fn join_onto_empty_base() {
    assert_eq!(join_path("", "guest"), "guest");
}

#[test]
fn absolute_paths_start_at_root() {
    assert!(is_absolute("/a"));
    assert!(!is_absolute("a/b"));
    assert!(!is_absolute(""));
}

#[test]
fn candidate_directory_is_relative_to_base() {
    assert_eq!(crate_dir_candidate("guest", "/ws/host"), "/ws/host/guest");
    assert_eq!(crate_dir_candidate("/abs/guest", "/ws/host"), "/abs/guest");
}

#[test]
fn manifest_is_in_crate_directory() {
    assert_eq!(manifest_path("/ws/guest"), "/ws/guest/Cargo.toml");
}

#[test]
fn artifact_follows_layout_convention() {
    let layout = ArtifactLayout::risc0_release();
    assert_eq!(layout.target_triple, "riscv32im-risc0-zkvm-elf");
    assert_eq!(layout.profile, Profile::Release);
    assert_eq!(
        artifact_path("/ws/host", &layout, "adder"),
        "/ws/host/../target/riscv32im-risc0-zkvm-elf/release/adder"
    );
}

#[test]
fn artifact_in_debug_profile() {
    let layout = ArtifactLayout { target_triple: "x86_64-unknown-linux-gnu".to_string(), profile: Profile::Debug };
    assert_eq!(
        artifact_path("/ws/host/", &layout, "adder"),
        "/ws/host/../target/x86_64-unknown-linux-gnu/debug/adder"
    );
}

#[test]
fn binding_names_are_identifiers() {
    assert!(is_valid_binding_name("adder_guest"));
    assert!(is_valid_binding_name("_private"));
    assert!(is_valid_binding_name("Guest2"));
    assert!(!is_valid_binding_name(""));
    assert!(!is_valid_binding_name("_"));
    assert!(!is_valid_binding_name("2guest"));
    assert!(!is_valid_binding_name("adder-guest"));
    assert!(!is_valid_binding_name("adder guest"));
}

#[test]
fn manifest_name_is_read() {
    let text = "[package]\nname = \"adder\"\nversion = \"0.1.0\"\n";
    assert_eq!(crate_name_from_manifest(text), Ok("adder".to_string()));
}

#[test]
fn manifest_name_in_dotted_key() {
    assert_eq!(crate_name_from_manifest("package.name = \"methods\"\n"), Ok("methods".to_string()));
}

#[test]
fn manifest_without_name() {
    let text = "[package]\nversion = \"0.1.0\"\n";
    assert_eq!(crate_name_from_manifest(text), Err(ResolutionError::NameMissing));
}

#[test]
fn manifest_without_package() {
    assert_eq!(crate_name_from_manifest("[dependencies]\nserde = \"1\"\n"), Err(ResolutionError::NameMissing));
}

#[test]
fn manifest_name_not_a_string() {
    assert_eq!(crate_name_from_manifest("[package]\nname = 7\n"), Err(ResolutionError::NameMissing));
}

#[test]
fn manifest_name_outside_package() {
    assert_eq!(crate_name_from_manifest("name = \"adder\"\n"), Err(ResolutionError::NameMissing));
}

#[test]
fn manifest_not_toml() {
    assert_eq!(crate_name_from_manifest("[package\nname = "), Err(ResolutionError::ManifestInvalid));
}

#[test]
fn locate_yields_name_and_path() {
    let layout = ArtifactLayout::risc0_release();
    let r = locate("/ws/host", &layout, "[package]\nname = \"adder\"\n").unwrap();
    assert_eq!(r.crate_name, "adder");
    assert_eq!(r.path, "/ws/host/../target/riscv32im-risc0-zkvm-elf/release/adder");
}

#[test]
fn locate_reports_missing_name() {
    let layout = ArtifactLayout::risc0_release();
    assert_eq!(locate("/ws/host", &layout, "[package]\n").err(), Some(ResolutionError::NameMissing));
}

#[test]
fn locate_reports_invalid_manifest() {
    let layout = ArtifactLayout::risc0_release();
    assert_eq!(locate("/ws/host", &layout, "= =").err(), Some(ResolutionError::ManifestInvalid));
}
