use cc::{Config, OptLevel, ToolFamily};

#[test]
fn cflags_gnu_no_warnings_if_cflags() {
    let mut cfg = Config::new("x86_64-unknown-linux-gnu", "x86_64-unknown-linux-gnu");
    cfg.opt_level = OptLevel::Two;
    cfg.cflags_env = Some("-Wflag-does-not-exist".to_string());
    let gcc = ToolFamily::detect("/tmp/gcc-test/gcc", "gnu").unwrap();
    let args = cfg.compile_arguments(gcc, &Vec::new(), "foo.c", "/tmp/gcc-test/foo.o");
    assert!(!args.iter().any(|a| a == "-Wall"));
    assert!(!args.iter().any(|a| a == "-Wextra"));
}
