use cc::{finish_override, known_wrappers, ResolvedOverride};

const DIR: &str = "/tmp/gcc-test";

fn which(name: &str) -> String {
    format!("{}/{}", DIR, name)
}

/// Reads `value` with the compiler token found at `which(<compiler>)`.
fn get_compiler(value: &str, compiler: &str) -> ResolvedOverride {
    finish_override(value, &known_wrappers(), Ok(which(compiler))).unwrap()
}

#[test]
fn main() {
    ccache();
    distcc();
    ccache_spaces();
    ccache_env_flags();
    leading_spaces();
    extra_flags();
    path_to_ccache();
    more_spaces();
}

fn ccache() {
    let compiler = get_compiler("ccache cc", "cc");
    assert_eq!(compiler.compiler_path, which("cc"));
    assert_eq!(compiler.invocation.compiler, "cc");
}

fn ccache_spaces() {
    let compiler = get_compiler("ccache        cc", "cc");
    assert_eq!(compiler.compiler_path, which("cc"));
    assert_eq!(compiler.invocation.compiler, "cc");
}

fn distcc() {
    let compiler = get_compiler("distcc cc", "cc");
    assert_eq!(compiler.compiler_path, which("cc"));
    assert_eq!(compiler.invocation.wrapper, Some("distcc".to_string()));
}

fn ccache_env_flags() {
    let result = finish_override(
        "ccache lol-this-is-not-a-compiler",
        &known_wrappers(),
        Err("cannot find binary path".to_string()),
    );
    assert!(result.is_err());
}

fn leading_spaces() {
    let compiler = get_compiler(" test ", "test");
    assert_eq!(compiler.compiler_path, which("test"));
    assert_eq!(compiler.invocation.compiler, "test");
    assert_eq!(compiler.invocation.wrapper, None);
}

fn extra_flags() {
    let compiler = get_compiler("ccache cc -m32", "cc");
    assert_eq!(compiler.compiler_path, which("cc"));
    assert_eq!(compiler.invocation.flags, vec!["-m32".to_string()]);
}

fn path_to_ccache() {
    let ccache = which("ccache");
    let cc = which("cc");
    let compiler = get_compiler(&format!("{} cc -m32", ccache), "cc");
    assert_eq!(compiler.compiler_path, cc);
    assert_eq!(compiler.cc_env(), format!("{} {} -m32", ccache, cc));
}

fn more_spaces() {
    let compiler = get_compiler("cc -m32", "cc");
    assert_eq!(compiler.compiler_path, which("cc"));
    assert_eq!(compiler.invocation.wrapper, None);
    assert_eq!(compiler.invocation.flags, vec!["-m32".to_string()]);
}
