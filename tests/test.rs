use cc::{archive_arguments, probe_verdict, Config, Define, OptLevel, ToolFamily};

const DIR: &str = "/tmp/gcc-test";

/// The arguments of one recorded invocation.
struct Execution {
    args: Vec<String>,
}

impl Execution {
    fn has(&self, p: &str) -> bool {
        self.args.iter().any(|a| a == p)
    }

    fn must_have(&self, p: &str) -> &Execution {
        if !self.has(p) {
            panic!("didn't find {:?} in {:?}", p, self.args);
        }
        self
    }

    fn must_not_have(&self, p: &str) -> &Execution {
        if self.has(p) {
            panic!("found {:?} in {:?}", p, self.args);
        }
        self
    }

    fn must_have_in_order(&self, before: &str, after: &str) -> &Execution {
        let b = self.args.iter().rposition(|x| x == before);
        let a = self.args.iter().rposition(|x| x == after);
        match (b, a) {
            (Some(b), Some(a)) if b < a => {}
            (b, a) => panic!(
                "{:?} (last position: {:?}) did not appear before {:?} (last position: {:?})",
                before, b, after, a
            ),
        }
        self
    }
}

/// A configuration with the given target as host and target, optimization
/// level 2 and no debug information.
fn target(t: &str) -> Config {
    let mut cfg = Config::new(t, t);
    cfg.opt_level = OptLevel::Two;
    cfg.debug = false;
    cfg
}

fn default() -> Config {
    target("x86_64-unknown-linux-gnu")
}

fn msvc() -> Config {
    target("x86_64-pc-windows-msvc")
}

fn family(program: &str, probe_output: &str) -> ToolFamily {
    ToolFamily::detect(&format!("{}/{}", DIR, program), probe_output).unwrap()
}

fn trad() -> ToolFamily {
    family("cc", "# 1 \"cc_rs_tool_family.h\"\ngnu\n")
}

fn clang() -> ToolFamily {
    family("clang", "clang\n")
}

fn msvc_family() -> ToolFamily {
    family("cl", "")
}

/// What a stand-in compiler that rejects `-Wflag-does-not-exist`, and
/// `-std=c++11` unless it is a C++ driver, prints to stderr for `flag`.
fn stub_stderr(program: &str, flag: &str) -> String {
    let rejected = flag == "-Wflag-does-not-exist" || (flag == "-std=c++11" && !program.ends_with("++"));
    if rejected {
        format!("{}: flag '{}' not supported\n", program, flag)
    } else {
        String::new()
    }
}

fn compile_with(cfg: &Config, f: ToolFamily, program: &str, src: &str) -> Execution {
    let probed: Vec<bool> = cfg
        .flags_supported
        .iter()
        .map(|flag| probe_verdict(f, true, &stub_stderr(program, flag)))
        .collect();
    let obj = format!("{}/foo.o", DIR);
    Execution { args: cfg.compile_arguments(f, &probed, src, &obj) }
}

fn compile(cfg: &Config, f: ToolFamily) -> Execution {
    compile_with(cfg, f, "cc", "foo.c")
}

fn archive(f: ToolFamily) -> Execution {
    let objs = vec![format!("{}/foo.o", DIR)];
    Execution { args: archive_arguments(f, &format!("{}/libfoo.a", DIR), &objs) }
}

#[test]
fn gnu_smoke() {
    let cfg = default();
    compile(&cfg, trad())
        .must_have("-O2")
        .must_have("foo.c")
        .must_not_have("-g")
        .must_have("-c")
        .must_have("-ffunction-sections")
        .must_have("-fdata-sections");
    archive(trad()).must_have(&format!("{}/foo.o", DIR));
}

#[test]
fn gnu_opt_level_1() {
    let mut cfg = default();
    cfg.opt_level = OptLevel::One;
    compile(&cfg, trad()).must_have("-O1").must_not_have("-O2");
}

#[test]
fn gnu_opt_level_s() {
    let mut cfg = default();
    cfg.opt_level = OptLevel::Size;
    compile(&cfg, trad())
        .must_have("-Os")
        .must_not_have("-O1")
        .must_not_have("-O2")
        .must_not_have("-O3")
        .must_not_have("-Oz");
}

#[test]
fn gnu_debug() {
    let mut cfg = default();
    cfg.debug = true;
    compile(&cfg, trad()).must_have("-g");
}

#[test]
fn gnu_warnings_into_errors() {
    let mut cfg = default();
    cfg.warnings_into_errors = true;
    compile(&cfg, trad()).must_have("-Werror");
}

#[test]
fn gnu_warnings() {
    let mut cfg = default();
    cfg.warnings = true;
    cfg.flags.push("-Wno-missing-field-initializers".to_string());
    compile(&cfg, trad()).must_have("-Wall").must_have("-Wextra");
}

#[test]
fn gnu_extra_warnings0() {
    let mut cfg = default();
    cfg.warnings = true;
    cfg.extra_warnings = false;
    cfg.flags.push("-Wno-missing-field-initializers".to_string());
    compile(&cfg, trad()).must_have("-Wall").must_not_have("-Wextra");
}

#[test]
fn gnu_extra_warnings1() {
    let mut cfg = default();
    cfg.warnings = false;
    cfg.extra_warnings = true;
    cfg.flags.push("-Wno-missing-field-initializers".to_string());
    compile(&cfg, trad()).must_not_have("-Wall").must_have("-Wextra");
}

#[test]
fn gnu_warnings_overridable() {
    let mut cfg = default();
    cfg.warnings = true;
    cfg.flags.push("-Wno-missing-field-initializers".to_string());
    compile(&cfg, trad()).must_have_in_order("-Wall", "-Wno-missing-field-initializers");
}

#[test]
fn test_gnu_no_warnings_if_cflags() {
    let mut cfg = default();
    cfg.cflags_env = Some("-Wflag-does-not-exist".to_string());
    compile(&cfg, trad()).must_not_have("-Wall").must_not_have("-Wextra");
}

#[test]
fn test_gnu_no_warnings_if_cxxflags() {
    let mut cfg = default();
    cfg.cxxflags_env = Some("-Wflag-does-not-exist".to_string());
    compile(&cfg, trad()).must_not_have("-Wall").must_not_have("-Wextra");
}

#[test]
fn trad_x86_64_defaults() {
    let cfg = target("x86_64-unknown-linux-gnu");
    compile(&cfg, trad()).must_have("-m64").must_have("-fPIC");
}

#[test]
fn clang_x86_64_defaults() {
    let cfg = target("x86_64-apple-darwin");
    compile(&cfg, clang()).must_not_have("-m64").must_have("-fPIC");
}

#[test]
fn no_pic() {
    fn run(f: ToolFamily, arch: &str, vendor_os: &str) {
        let mut cfg = target(&format!("{}-{}", arch, vendor_os));
        cfg.pic = Some(false);
        compile(&cfg, f).must_not_have("-fPIC");
    }
    for arch in &["x86_64", "i686"] {
        run(trad(), arch, "unknown-linux-gnu");
        run(clang(), arch, "apple-darwin");
    }
}

#[test]
fn trad_i686_defaults() {
    let cfg = target("i686-unknown-linux-gnu");
    compile(&cfg, trad()).must_have("-m32").must_have("-fPIC");
}

#[test]
fn clang_i686_defaults() {
    let cfg = target("i686-apple-darwin");
    compile(&cfg, clang()).must_not_have("-m32").must_have("-fPIC");
}

#[test]
fn trad_x86_64_no_plt() {
    let mut cfg = target("x86_64-unknown-linux-gnu");
    cfg.use_plt = Some(false);
    compile(&cfg, trad()).must_have("-fno-plt");
}

#[test]
fn trad_cpp_set_stdlib() {
    let mut cfg = target("x86_64-unknown-linux-gnu");
    cfg.cpp = true;
    cfg.cpp_stdlib = Some("foo".to_string());
    compile(&cfg, trad()).must_have("-stdlib=libfoo");
}

#[test]
fn trad_cpp_set_stdlib_no_cpp() {
    let mut cfg = target("x86_64-unknown-linux-gnu");
    cfg.cpp_stdlib = Some("foo".to_string());
    compile(&cfg, trad()).must_not_have("-stdlib=libfoo");
}

#[test]
fn trad_include() {
    let mut cfg = target("x86_64-unknown-linux-gnu");
    cfg.include_directories.push("foo/bar".to_string());
    compile(&cfg, trad()).must_have("-I").must_have("foo/bar");
}

#[test]
fn trad_define() {
    let mut cfg = target("x86_64-unknown-linux-gnu");
    cfg.definitions.push(Define { name: "FOO".to_string(), value: Some("bar".to_string()) });
    cfg.definitions.push(Define { name: "BAR".to_string(), value: None });
    compile(&cfg, trad()).must_have("-DFOO=bar").must_have("-DBAR");
}

#[test]
fn trad_compile_assembly() {
    let cfg = target("x86_64-unknown-linux-gnu");
    compile_with(&cfg, trad(), "cc", "foo.S").must_have("foo.S");
}

#[test]
fn trad_shared() {
    let mut cfg = target("x86_64-unknown-linux-gnu");
    cfg.shared_flag = true;
    cfg.static_flag = false;
    compile(&cfg, trad()).must_have("-shared").must_not_have("-static");
}

#[test]
fn trad_flag_if_supported() {
    let mut cfg = target("x86_64-unknown-linux-gnu");
    cfg.flags.push("-v".to_string());
    cfg.flags_supported.push("-Wall".to_string());
    cfg.flags_supported.push("-Wflag-does-not-exist".to_string());
    cfg.flags_supported.push("-std=c++11".to_string());
    compile(&cfg, trad())
        .must_have("-v")
        .must_have("-Wall")
        .must_not_have("-Wflag-does-not-exist")
        .must_not_have("-std=c++11");
}

#[test]
fn gnu_flag_if_supported_cpp() {
    let mut cfg = target("x86_64-unknown-linux-gnu");
    cfg.cpp = true;
    cfg.flags_supported.push("-std=c++11".to_string());
    compile_with(&cfg, trad(), "c++", "foo.cpp").must_have("-std=c++11");
}

#[test]
fn gnu_static() {
    let mut cfg = target("x86_64-unknown-linux-gnu");
    cfg.shared_flag = false;
    cfg.static_flag = true;
    compile(&cfg, trad()).must_have("-static").must_not_have("-shared");
}

#[test]
fn msvc_smoke() {
    let cfg = msvc();
    compile(&cfg, msvc_family())
        .must_have("/O2")
        .must_have("foo.c")
        .must_not_have("/Z7")
        .must_have("/c")
        .must_have("/MD");
    archive(msvc_family()).must_have(&format!("{}/foo.o", DIR));
}

#[test]
fn msvc_opt_level_0() {
    let mut cfg = msvc();
    cfg.opt_level = OptLevel::Zero;
    compile(&cfg, msvc_family()).must_not_have("/O2");
}

#[test]
fn msvc_debug() {
    let mut cfg = msvc();
    cfg.debug = true;
    compile(&cfg, msvc_family()).must_have("/Z7");
}

#[test]
fn msvc_include() {
    let mut cfg = msvc();
    cfg.include_directories.push("foo/bar".to_string());
    compile(&cfg, msvc_family()).must_have("/I").must_have("foo/bar");
}

#[test]
fn msvc_define() {
    let mut cfg = msvc();
    cfg.definitions.push(Define { name: "FOO".to_string(), value: Some("bar".to_string()) });
    cfg.definitions.push(Define { name: "BAR".to_string(), value: None });
    compile(&cfg, msvc_family()).must_have("/DFOO=bar").must_have("/DBAR");
}

#[test]
fn msvc_static_crt() {
    let mut cfg = msvc();
    cfg.static_crt = true;
    compile(&cfg, msvc_family()).must_have("/MT");
}

#[test]
fn msvc_no_static_crt() {
    let mut cfg = msvc();
    cfg.static_crt = false;
    compile(&cfg, msvc_family()).must_have("/MD");
}
