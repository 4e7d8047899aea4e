use conan2::{build_type_settings, profile_detect_args, ConanInstall, ConanVerbosity};

fn strings(v: &[&str]) -> Vec<String> {
    v.iter().map(|s| s.to_string()).collect()
}

#[test]
fn default_install_args() {
    let c = ConanInstall::new();
    assert_eq!(
        c.install_args(Some("/out"), None).unwrap(),
        strings(&["install", ".", "-vwarning", "--format", "json", "--output-folder", "/out"])
    );
    assert!(c.profiles_to_detect().is_empty());
}

#[test]
fn install_args_need_an_output_folder() {
    let mut c = ConanInstall::new();
    assert_eq!(c.install_args(None, Some("debug")), None);
    c.output_folder("/set");
    assert_eq!(c.install_args(None, None).unwrap()[6], "/set");
}

#[test]
fn configured_install_args() {
    let mut c = ConanInstall::with_recipe("tests/conanfile.txt");
    c.output_folder("/tmp/t")
        .profile("host")
        .build_profile("build")
        .build("missing")
        .verbosity(ConanVerbosity::Debug);
    assert_eq!(
        c.install_args(Some("/ignored"), Some("debug")).unwrap(),
        strings(&[
            "install",
            "tests/conanfile.txt",
            "-vdebug",
            "--format",
            "json",
            "--output-folder",
            "/tmp/t",
            "--profile:host",
            "host",
            "--profile:build",
            "build",
            "--build",
            "missing",
            "-s",
            "build_type=Debug",
        ])
    );
}

#[test]
fn host_profile_sets_the_profile() {
    let mut a = ConanInstall::new();
    a.host_profile("p");
    let mut b = ConanInstall::new();
    b.profile("p");
    assert_eq!(a.install_args(Some("/o"), None), b.install_args(Some("/o"), None));
    assert_eq!(
        a.install_args(Some("/o"), Some("release")).unwrap()[7..],
        strings(&["--profile:host", "p", "-s", "build_type=Release"])[..]
    );
}

#[test]
fn profiles_to_detect() {
    let mut c = ConanInstall::new();
    c.detect_profile();
    assert_eq!(c.profiles_to_detect(), vec![None]);
    c.profile("h");
    assert_eq!(c.profiles_to_detect(), vec![Some("h".to_string()), None]);
    c.build_profile("h");
    assert_eq!(c.profiles_to_detect(), vec![Some("h".to_string())]);
    c.build_profile("b");
    assert_eq!(c.profiles_to_detect(), vec![Some("h".to_string()), Some("b".to_string())]);
}

#[test]
fn detect_args() {
    assert_eq!(profile_detect_args(None), strings(&["profile", "detect", "--exist-ok"]));
    assert_eq!(
        profile_detect_args(Some("cargo")),
        strings(&["profile", "detect", "--exist-ok", "--name", "cargo"])
    );
}

#[test]
fn build_type_from_cargo_profile() {
    assert_eq!(build_type_settings(Some("debug")), strings(&["-s", "build_type=Debug"]));
    assert_eq!(build_type_settings(Some("release")), strings(&["-s", "build_type=Release"]));
    assert!(build_type_settings(Some("bench")).is_empty());
    assert!(build_type_settings(None).is_empty());
}

#[test]
fn verbosity_names() {
    let all = [
        (ConanVerbosity::Quiet, "quiet"),
        (ConanVerbosity::Error, "error"),
        (ConanVerbosity::Warning, "warning"),
        (ConanVerbosity::Notice, "notice"),
        (ConanVerbosity::Status, "status"),
        (ConanVerbosity::Verbose, "verbose"),
        (ConanVerbosity::Debug, "debug"),
        (ConanVerbosity::Trace, "trace"),
    ];
    for (v, name) in all {
        assert_eq!(v.as_str(), name);
    }
    assert_eq!(ConanVerbosity::default(), ConanVerbosity::Warning);
    assert!(ConanVerbosity::Quiet < ConanVerbosity::Trace);
}

#[test]
fn default_builder_is_new() {
    assert_eq!(
        ConanInstall::default().install_args(Some("/o"), None),
        ConanInstall::new().install_args(Some("/o"), None)
    );
}
