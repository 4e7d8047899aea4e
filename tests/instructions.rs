use conan2::{
    CargoInstructions, ConanDependencyGraph, ConanError, ConanOutput, GraphError, Json,
};

fn text(cargo: &CargoInstructions) -> String {
    String::from_utf8(cargo.as_bytes().to_vec()).unwrap()
}

fn parse_ok(stdout: &str, stderr: &str) -> CargoInstructions {
    match ConanOutput::new(Some(0), stdout.as_bytes().to_vec(), stderr.as_bytes().to_vec()).parse() {
        Ok(cargo) => cargo,
        Err(_) => panic!("parse failed"),
    }
}

fn graph_text(doc: &str) -> String {
    let cargo = parse_ok(doc, "");
    let t = text(&cargo);
    t.strip_prefix("cargo:rerun-if-env-changed=CONAN\n").unwrap().to_string()
}

const SCENARIO: &str = r#"{"graph": {"nodes": {
    "0": {"dependencies": {"1": {}}},
    "1": {"cpp_info": {"lib1": {"libs": ["foo"], "libdirs": ["/p/lib"], "includedirs": ["/p/include"]}}}
}}}"#;

#[test]
fn end_to_end_scenario() {
    let cargo = parse_ok(SCENARIO, "");
    assert_eq!(
        text(&cargo),
        "cargo:rerun-if-env-changed=CONAN\n\
         cargo:rustc-link-search=/p/lib\n\
         cargo:rustc-link-lib=foo\n\
         cargo:include=/p/include\n"
    );
    assert_eq!(cargo.include_paths(), vec!["/p/include".to_string()]);
}

#[test]
fn warnings_from_error_stream() {
    let cargo = parse_ok(SCENARIO, "WARN: missing cache entry\nINFO: done\n");
    let t = text(&cargo);
    assert_eq!(t.matches("cargo:warning=").count(), 1);
    assert!(t.starts_with("cargo:warning=missing cache entry\ncargo:rerun-if-env-changed=CONAN\ncargo:rustc-link-search=/p/lib\n"));
}

#[test]
fn warning_lines_strip_carriage_return_and_keep_order() {
    let cargo = parse_ok(r#"{"graph": {"nodes": {}}}"#, "WARN: a\r\nWARN:b\nWARN: \nxWARN: c\nWARN: d\r");
    assert_eq!(
        text(&cargo),
        "cargo:warning=a\ncargo:warning=\ncargo:warning=d\r\ncargo:rerun-if-env-changed=CONAN\n"
    );
}

#[test]
fn failed_run_gives_code_and_error_text() {
    let out = ConanOutput::new(Some(1), Vec::new(), b"ERROR: Conanfile not found at x".to_vec());
    assert!(!out.is_success());
    assert_eq!(out.status_code(), 1);
    assert_eq!(out.stdout().len(), 0);
    match out.parse() {
        Err(ConanError::Failed { code, stderr }) => {
            assert_eq!(code, 1);
            assert_eq!(stderr, b"ERROR: Conanfile not found at x".to_vec());
        }
        _ => panic!("expected a failure"),
    }
}

#[test]
fn run_killed_by_signal_is_a_failure_with_code_zero() {
    let out = ConanOutput::new(None, SCENARIO.as_bytes().to_vec(), Vec::new());
    assert!(!out.is_success());
    assert_eq!(out.status_code(), 0);
    assert!(matches!(out.ensure_success(), Err(ConanError::Failed { code: 0, .. })));
}

#[test]
fn successful_run_passes_ensure_success() {
    let out = ConanOutput::new(Some(0), b"{}".to_vec(), b"e".to_vec());
    assert!(out.is_success());
    assert!(out.ensure_success().is_ok());
    assert_eq!(out.stdout(), b"{}");
    assert_eq!(out.stderr(), b"e");
}

#[test]
fn error_stream_must_be_utf8() {
    let out = ConanOutput::new(Some(0), SCENARIO.as_bytes().to_vec(), vec![b'W', 0xff, b'\n']);
    assert!(matches!(out.parse(), Err(ConanError::InvalidStderr)));
}

#[test]
fn output_must_be_json() {
    let out = ConanOutput::new(Some(0), b"{\"graph\": ".to_vec(), Vec::new());
    match out.parse() {
        Err(ConanError::InvalidJson { message }) => assert!(!message.is_empty()),
        _ => panic!("expected a JSON error"),
    }
}

#[test]
fn document_without_graph_or_nodes_is_refused() {
    let cases: [(&str, GraphError); 4] = [
        ("[1, 2]", GraphError::RootNotObject),
        (r#"{"nodes": {}}"#, GraphError::MissingGraph),
        (r#"{"graph": {"node": {}}}"#, GraphError::MissingNodes),
        (r#"{"graph": {"nodes": []}}"#, GraphError::MissingNodes),
    ];
    for (doc, expected) in cases {
        let out = ConanOutput::new(Some(0), doc.as_bytes().to_vec(), b"WARN: w\n".to_vec());
        match out.parse() {
            Err(ConanError::Graph(e)) => assert_eq!(e, expected),
            _ => panic!("expected a graph error"),
        }
    }
}

#[test]
fn refused_graph_leaves_instructions_unchanged() {
    let mut cargo = CargoInstructions::new();
    cargo.warning("before");
    let graph = ConanDependencyGraph(Json::Object(vec![("graph".to_string(), Json::Null)]));
    assert_eq!(graph.traverse(&mut cargo), Err(GraphError::MissingGraph));
    assert_eq!(text(&cargo), "cargo:warning=before\n");
}

#[test]
fn component_without_libs_contributes_nothing() {
    let doc = r#"{"graph": {"nodes": {"0": {"cpp_info": {
        "empty": {"libs": [], "libdirs": ["/e/lib"], "includedirs": ["/e/inc"], "exelinkflags": ["-e"], "requires": ["real"]},
        "absent": {"libdirs": ["/a/lib"], "system_libs": ["m"], "requires": ["real"]},
        "notobject": 5
    }}}}}"#;
    assert_eq!(graph_text(doc), "");
    let doc2 = r#"{"graph": {"nodes": {"0": {"cpp_info": {
        "hub": {"libs": [], "requires": ["real"]},
        "real": {"libs": ["r"]}
    }}}}}"#;
    assert_eq!(graph_text(doc2), "cargo:rustc-link-lib=r\n");
}

#[test]
fn component_directive_order() {
    let doc = r#"{"graph": {"nodes": {"0": {"cpp_info": {
        "main": {
            "requires": ["dep"],
            "sharedlinkflags": ["-shared-flag"],
            "exelinkflags": ["-fopenmp"],
            "includedirs": ["/m/inc"],
            "system_libs": ["pthread"],
            "libs": ["m1", 7, "m2"],
            "libdirs": ["/m/lib"]
        },
        "dep": {"libs": ["d"], "libdirs": ["/d/lib"]}
    }}}}}"#;
    assert_eq!(
        graph_text(doc),
        "cargo:rustc-link-search=/m/lib\n\
         cargo:rustc-link-lib=m1\n\
         cargo:rustc-link-lib=m2\n\
         cargo:rustc-link-lib=pthread\n\
         cargo:include=/m/inc\n\
         cargo:rustc-link-arg-bins=-fopenmp\n\
         cargo:rustc-cdylib-link-arg=-shared-flag\n\
         cargo:rustc-link-search=/d/lib\n\
         cargo:rustc-link-lib=d\n\
         cargo:rustc-link-search=/d/lib\n\
         cargo:rustc-link-lib=d\n"
    );
}

#[test]
fn include_paths_have_no_duplicates() {
    let doc = r#"{"graph": {"nodes": {
        "0": {"cpp_info": {"a": {"libs": ["a"], "includedirs": ["/inc", "/a/inc", "/inc"]}}, "dependencies": {"1": {}}},
        "1": {"cpp_info": {"b": {"libs": ["b"], "includedirs": ["/a/inc", "/b/inc"]}}}
    }}}"#;
    let cargo = parse_ok(doc, "");
    assert_eq!(text(&cargo).matches("cargo:include=").count(), 5);
    let paths = cargo.include_paths();
    assert_eq!(paths, vec!["/inc".to_string(), "/a/inc".to_string(), "/b/inc".to_string()]);
    assert_eq!(cargo.include_paths(), paths);
}

#[test]
fn traversal_is_deterministic() {
    let first = parse_ok(SCENARIO, "WARN: w\n");
    let second = parse_ok(SCENARIO, "WARN: w\n");
    assert_eq!(first.as_bytes(), second.as_bytes());
    assert_eq!(first.include_paths(), second.include_paths());
    let graph = ConanDependencyGraph(Json::Object(vec![(
        "graph".to_string(),
        Json::Object(vec![("nodes".to_string(), Json::Object(vec![(
            "0".to_string(),
            Json::Object(vec![(
                "cpp_info".to_string(),
                Json::Object(vec![(
                    "c".to_string(),
                    Json::Object(vec![("libs".to_string(), Json::Array(vec![Json::Str("z".to_string())]))]),
                )]),
            )]),
        )]))]),
    )]));
    let mut a = CargoInstructions::new();
    let mut b = CargoInstructions::new();
    assert!(graph.traverse(&mut a).is_ok());
    assert!(graph.traverse(&mut b).is_ok());
    assert_eq!(a.as_bytes(), b.as_bytes());
    assert_eq!(text(&a), "cargo:rustc-link-lib=z\n");
}

#[test]
fn nodes_follow_dependencies_in_document_order() {
    let doc = r#"{"graph": {"nodes": {
        "0": {"dependencies": {"10": {}, "2": {}, "99": {}}},
        "2": {"cpp_info": {"c": {"libs": ["two"]}}, "dependencies": {"3": {}}},
        "10": {"cpp_info": {"c": {"libs": ["ten"]}}},
        "3": {"cpp_info": {"c": {"libs": ["three"]}}}
    }}}"#;
    assert_eq!(
        graph_text(doc),
        "cargo:rustc-link-lib=ten\ncargo:rustc-link-lib=two\ncargo:rustc-link-lib=three\n"
    );
}

#[test]
fn shared_dependency_is_visited_from_each_dependent() {
    let doc = r#"{"graph": {"nodes": {
        "0": {"dependencies": {"1": {}, "2": {}}},
        "1": {"cpp_info": {"c": {"libs": ["one"]}}, "dependencies": {"3": {}}},
        "2": {"cpp_info": {"c": {"libs": ["two"]}}, "dependencies": {"3": {}}},
        "3": {"cpp_info": {"c": {"libs": ["z"]}}}
    }}}"#;
    assert_eq!(
        graph_text(doc),
        "cargo:rustc-link-lib=one\ncargo:rustc-link-lib=z\ncargo:rustc-link-lib=two\ncargo:rustc-link-lib=z\n"
    );
}

#[test]
fn cycles_end_the_walk() {
    let doc = r#"{"graph": {"nodes": {
        "0": {"cpp_info": {
            "a": {"libs": ["a"], "requires": ["b"]},
            "b": {"libs": ["b"], "requires": ["a", "b"]}
        }, "dependencies": {"1": {}}},
        "1": {"cpp_info": {"c": {"libs": ["one"]}}, "dependencies": {"0": {}, "1": {}}}
    }}}"#;
    assert_eq!(
        graph_text(doc),
        "cargo:rustc-link-lib=a\ncargo:rustc-link-lib=b\n\
         cargo:rustc-link-lib=b\ncargo:rustc-link-lib=a\n\
         cargo:rustc-link-lib=one\n"
    );
}

#[test]
fn missing_root_node_gives_nothing() {
    assert_eq!(graph_text(r#"{"graph": {"nodes": {"1": {"cpp_info": {"c": {"libs": ["x"]}}}}}}"#), "");
}

#[test]
fn each_instruction_renders_one_line() {
    let mut c = CargoInstructions::new();
    c.warning("w");
    c.rerun_if_env_changed("CONAN");
    c.rustc_link_search("/l");
    c.rustc_link_lib("z");
    c.include_dir("/i");
    c.rustc_link_arg_bins("-b");
    c.rustc_cdylib_link_arg("-c");
    assert_eq!(
        text(&c),
        "cargo:warning=w\n\
         cargo:rerun-if-env-changed=CONAN\n\
         cargo:rustc-link-search=/l\n\
         cargo:rustc-link-lib=z\n\
         cargo:include=/i\n\
         cargo:rustc-link-arg-bins=-b\n\
         cargo:rustc-cdylib-link-arg=-c\n"
    );
    assert_eq!(c.include_paths(), vec!["/i".to_string()]);
    assert_eq!(CargoInstructions::new().as_bytes().len(), 0);
}

#[test]
fn non_ascii_values_are_kept() {
    let mut c = CargoInstructions::new();
    c.rustc_link_search("/höme/ü");
    assert_eq!(c.as_bytes(), "cargo:rustc-link-search=/höme/ü\n".as_bytes());
}

#[test]
fn json_accessors() {
    let j = Json::Object(vec![
        ("a".to_string(), Json::Array(vec![Json::Str("x".to_string()), Json::Bool(true)])),
        ("o".to_string(), Json::Object(vec![])),
        ("a".to_string(), Json::Null),
        ("n".to_string(), Json::Number("3".to_string())),
    ]);
    assert_eq!(j.get_array("a").map(|v| v.len()), Some(2));
    assert!(j.get_object("o").is_some());
    assert!(j.get_object("a").is_none());
    assert!(j.get("missing").is_none());
    assert!(matches!(j.get("n"), Some(Json::Number(n)) if n == "3"));
    assert!(Json::Null.get("a").is_none());
}

#[test]
fn non_object_nodes_and_components_are_skipped() {
    let doc = r#"{"graph": {"nodes": {
        "0": {"cpp_info": {"s": "libs", "a": ["x"], "c": {"libs": ["c"], "requires": ["s", "a", "none"]}},
              "dependencies": {"1": {}, "2": {}}},
        "1": ["cpp_info"],
        "2": {"cpp_info": {"d": {"libs": ["d"]}}}
    }}}"#;
    assert_eq!(graph_text(doc), "cargo:rustc-link-lib=c\ncargo:rustc-link-lib=d\n");
}
