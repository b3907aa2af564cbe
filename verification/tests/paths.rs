use rpc_dispatch::path::build_path;

#[test]
fn path_concrete_scenario() {
    let p = build_path("pkg", "Greeter", "SayHello");
    assert_eq!(p, "/pkg.Greeter/SayHello");
}

#[test]
fn path_same_inputs_same_output() {
    let a = build_path("a.b", "Svc", "Do");
    let b = build_path("a.b", "Svc", "Do");
    assert_eq!(a, b);
}

#[test]
fn path_differs_across_methods() {
    let a = build_path("pkg", "Greeter", "SayHello");
    let b = build_path("pkg", "Greeter", "SayGoodbye");
    assert_ne!(a, b);
}

#[test]
fn path_empty_parts_keep_separators() {
    let p = build_path("", "", "");
    assert_eq!(p, "/./");
}
