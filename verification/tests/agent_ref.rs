use aipack::agent::PartialAgentRef;

#[test]
fn test_agent_ref_new_localpath() {
    // -- Setup & Fixtures
    let input = "path/to/local/file.rs";

    // -- Exec
    let agent_ref = PartialAgentRef::new(input);

    // -- Check
    match agent_ref {
        PartialAgentRef::LocalPath(ref path) => {
            assert_eq!(path, input, "The local path should match the input string.");
        }
        _ => panic!("Expected AgentRef::LocalPath but got a different variant."),
    }
}

#[test]
fn test_agent_ref_new_packref_without_subpath() {
    // -- Setup & Fixtures
    let input = "pro@coder";

    // -- Exec
    let agent_ref = PartialAgentRef::new(input);

    // -- Check
    match agent_ref {
        PartialAgentRef::PackRef(ref pack_ref) => {
            assert_eq!(pack_ref.namespace.as_deref(), Some("pro"), "Namespace should be 'pro'.");
            assert_eq!(pack_ref.name, "coder", "Pack name should be 'coder'.");
            assert!(pack_ref.sub_path.is_none(), "Sub path should be None.");
        }
        _ => panic!("Expected AgentRef::PackRef but got a different variant."),
    }
}

#[test]
fn test_agent_ref_new_packref_with_subpath() {
    // -- Setup & Fixtures
    let input = " jc @ coder/example/path ";
    // note: the input contains spaces which should be trimmed

    // -- Exec
    let agent_ref = PartialAgentRef::new(input);

    // -- Check
    match agent_ref {
        PartialAgentRef::PackRef(ref pack_ref) => {
            assert_eq!(pack_ref.namespace.as_deref(), Some("jc"), "Namespace should be 'jc'.");
            assert_eq!(pack_ref.name, "coder", "Pack name should be 'coder'.");
            assert_eq!(
                pack_ref.sub_path.as_deref(),
                Some("example/path"),
                "Sub path should be 'example/path'."
            );
        }
        _ => panic!("Expected AgentRef::PackRef but got a different variant."),
    }
}
