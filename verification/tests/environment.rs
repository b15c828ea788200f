use cli_clipboard::{classify, Environment, Markers, Os};

fn env(pairs: &[(&str, &str)]) -> Vec<(String, String)> {
    pairs.iter().map(|(k, v)| (k.to_string(), v.to_string())).collect()
}

#[test]
fn standard_markers_are_the_variables_wsl_sets() {
    let markers = Markers::standard();
    assert_eq!(markers.wsl_markers, vec!["IS_WSL".to_string(), "WSL_DISTRO_NAME".to_string()]);
    assert_eq!(markers.interop_markers, vec!["WSL_INTEROP".to_string()]);
}

#[test]
fn without_a_wsl_marker_the_host_is_native() {
    let markers = Markers::standard();
    let plain = env(&[("HOME", "/home/me"), ("DISPLAY", ":0")]);
    assert_eq!(classify(&plain, &markers, Os::Linux), Environment::Native(Os::Linux));
    assert_eq!(classify(&plain, &markers, Os::MacOs), Environment::Native(Os::MacOs));
    assert_eq!(classify(&plain, &markers, Os::Windows), Environment::Native(Os::Windows));
    assert_eq!(classify(&plain, &markers, Os::Other), Environment::Native(Os::Other));
    assert_eq!(classify(&Vec::new(), &markers, Os::Linux), Environment::Native(Os::Linux));
}

#[test]
fn interop_alone_does_not_make_wsl() {
    let markers = Markers::standard();
    let only_interop = env(&[("WSL_INTEROP", "/run/WSL/8_interop")]);
    assert_eq!(classify(&only_interop, &markers, Os::Linux), Environment::Native(Os::Linux));
}

#[test]
fn wsl_marker_with_interop_is_wsl2() {
    let markers = Markers::standard();
    let vars = env(&[("WSL_DISTRO_NAME", "Ubuntu"), ("WSL_INTEROP", "/run/WSL/8_interop")]);
    assert_eq!(classify(&vars, &markers, Os::Linux), Environment::Wsl2);
    let by_hand = env(&[("WSL_INTEROP", "x"), ("PATH", "/bin"), ("IS_WSL", "1")]);
    assert_eq!(classify(&by_hand, &markers, Os::Linux), Environment::Wsl2);
}

#[test]
fn wsl_marker_without_interop_is_wsl1() {
    let markers = Markers::standard();
    let vars = env(&[("PATH", "/bin"), ("WSL_DISTRO_NAME", "Debian")]);
    assert_eq!(classify(&vars, &markers, Os::Linux), Environment::Wsl1);
    let by_hand = env(&[("IS_WSL", "")]);
    assert_eq!(classify(&by_hand, &markers, Os::Linux), Environment::Wsl1);
}

#[test]
fn a_marker_counts_whatever_its_value() {
    let markers = Markers::standard();
    let empty_values = env(&[("WSL_DISTRO_NAME", ""), ("WSL_INTEROP", "")]);
    assert_eq!(classify(&empty_values, &markers, Os::Linux), Environment::Wsl2);
}

#[test]
fn marker_names_are_matched_whole_and_by_case() {
    let markers = Markers::standard();
    let near = env(&[("WSL_DISTRO_NAME_", "x"), ("wsl_distro_name", "x"), ("IS_WS", "1")]);
    assert_eq!(classify(&near, &markers, Os::Linux), Environment::Native(Os::Linux));
    let value_only = env(&[("SHELL", "WSL_DISTRO_NAME")]);
    assert_eq!(classify(&value_only, &markers, Os::Linux), Environment::Native(Os::Linux));
}

#[test]
fn markers_are_configuration() {
    let markers = Markers {
        wsl_markers: vec!["GUEST".to_string()],
        interop_markers: vec!["BRIDGE".to_string(), "BRIDGE2".to_string()],
    };
    let standard_vars = env(&[("WSL_DISTRO_NAME", "Ubuntu"), ("WSL_INTEROP", "x")]);
    assert_eq!(classify(&standard_vars, &markers, Os::Linux), Environment::Native(Os::Linux));
    assert_eq!(classify(&env(&[("GUEST", "1")]), &markers, Os::Linux), Environment::Wsl1);
    assert_eq!(
        classify(&env(&[("GUEST", "1"), ("BRIDGE2", "1")]), &markers, Os::Linux),
        Environment::Wsl2
    );
    let none = Markers { wsl_markers: Vec::new(), interop_markers: Vec::new() };
    assert_eq!(classify(&standard_vars, &none, Os::Windows), Environment::Native(Os::Windows));
}
