use cc::{
    emscripten_program, family_probe_arguments, family_probe_source, is_whitespace,
    locate_executable, parse_override, path_file_stem, probe_arguments, probe_verdict,
    resolve_override, settled_answer, split_whitespace, strip_extended_prefix, target_fields,
    Build, Config, Error, ErrorKind, Exe, FlagProbeCache, Minimal, Msvc, OptLevel, ProbeEntry,
    ProbeKey, ProbeStep, TargetInfo, ToolFamily,
};
use cc::known_wrappers;

fn linux() -> Config {
    let mut cfg = Config::new("x86_64-unknown-linux-gnu", "x86_64-unknown-linux-gnu");
    cfg.opt_level = OptLevel::Two;
    cfg
}

fn has(args: &[String], p: &str) -> bool {
    args.iter().any(|a| a == p)
}

fn key(flag: &str) -> ProbeKey {
    ProbeKey { tool: "/usr/bin/cc".to_string(), args: Vec::new(), flag: flag.to_string() }
}

#[test]
fn gap_width_does_not_change_parse() {
    let w = known_wrappers();
    let a = parse_override("ccache cc", &w).unwrap();
    let b = parse_override("ccache        cc", &w).unwrap();
    let c = parse_override("ccache\t \ncc", &w).unwrap();
    for x in [&b, &c] {
        assert_eq!(a.wrapper, x.wrapper);
        assert_eq!(a.compiler, x.compiler);
        assert_eq!(a.flags, x.flags);
    }
    assert_eq!(a.wrapper, Some("ccache".to_string()));
    assert_eq!(a.compiler, "cc");
    assert!(a.flags.is_empty());
}

#[test]
fn compiler_then_flags_without_wrapper() {
    let inv = parse_override("gcc -m32 -O3", &known_wrappers()).unwrap();
    assert_eq!(inv.wrapper, None);
    assert_eq!(inv.compiler, "gcc");
    assert_eq!(inv.flags, vec!["-m32".to_string(), "-O3".to_string()]);
}

#[test]
fn ccache_cc_m32_scenario() {
    let inv = parse_override("ccache cc -m32", &known_wrappers()).unwrap();
    assert_eq!(inv.wrapper, Some("ccache".to_string()));
    assert_eq!(inv.compiler, "cc");
    assert_eq!(inv.flags, vec!["-m32".to_string()]);
}

#[test]
fn wrapper_recognized_by_path_stem() {
    let inv = parse_override("/opt/bin/sccache.exe clang -c", &known_wrappers()).unwrap();
    assert_eq!(inv.wrapper, Some("/opt/bin/sccache.exe".to_string()));
    assert_eq!(inv.compiler, "clang");
    assert_eq!(inv.flags, vec!["-c".to_string()]);
}

#[test]
fn lone_wrapper_name_is_the_compiler() {
    let inv = parse_override("ccache", &known_wrappers()).unwrap();
    assert_eq!(inv.wrapper, None);
    assert_eq!(inv.compiler, "ccache");
}

#[test]
fn extra_wrappers_can_be_listed() {
    let mut w = known_wrappers();
    w.push("buildcache".to_string());
    let inv = parse_override("buildcache g++", &w).unwrap();
    assert_eq!(inv.wrapper, Some("buildcache".to_string()));
    assert_eq!(inv.compiler, "g++");
}

#[test]
fn empty_override_has_no_invocation() {
    assert!(parse_override("", &known_wrappers()).is_none());
    assert!(parse_override(" \t\n ", &known_wrappers()).is_none());
}

#[test]
fn override_parse_failed_error() {
    let r = resolve_override("   ", &known_wrappers(), Some("/nonexistent-dir"), "/");
    match r {
        Err(Error::OverrideParseFailed { value }) => assert_eq!(value, "   "),
        other => panic!("unexpected {:?}", other),
    }
    let r = resolve_override("ccache no-such-compiler-here", &known_wrappers(), Some("/nonexistent-dir"), "/");
    assert_eq!(r.unwrap_err().kind(), ErrorKind::OverrideParseFailed);
}

#[test]
fn tool_not_found_error() {
    let r = locate_executable("no-such-tool-anywhere", Some("/nonexistent-dir"), "/");
    match r {
        Err(Error::ToolNotFound { requested, search_path, reason }) => {
            assert_eq!(requested, "no-such-tool-anywhere");
            assert_eq!(search_path, Some("/nonexistent-dir".to_string()));
            assert!(!reason.is_empty());
        }
        other => panic!("unexpected {:?}", other),
    }
}

#[test]
fn build_reports_missing_working_directory() {
    let b = Build::new("cc", "");
    match b.locate(Some("/nonexistent-dir"), Err("gone".to_string())) {
        Err(Error::ToolNotFound { requested, reason, .. }) => {
            assert_eq!(requested, "cc");
            assert_eq!(reason, "can't access current directory: gone");
        }
        other => panic!("unexpected {:?}", other),
    }
}

#[test]
fn build_working_directory_choice() {
    let mut b = Build::new("cc", "");
    assert_eq!(b.working_dir(None, Ok("/amb".to_string())).unwrap(), "/amb");
    match b.working_dir(Some("/usr/bin"), Err("gone".to_string())) {
        Err(Error::ToolNotFound { requested, search_path, reason }) => {
            assert_eq!(requested, "cc");
            assert_eq!(search_path, Some("/usr/bin".to_string()));
            assert_eq!(reason, "can't access current directory: gone");
        }
        other => panic!("unexpected {:?}", other),
    }
    b.current_dir("/own");
    assert_eq!(b.working_dir(None, Err("gone".to_string())).unwrap(), "/own");
}

#[test]
fn build_lookup_errors_carry_the_search_path() {
    let mut b = Build::new("no-such-tool-anywhere", "");
    b.env("PATH", "/nonexistent-own");
    match b.locate(Some("/nonexistent-ambient"), Ok("/".to_string())) {
        Err(Error::ToolNotFound { requested, search_path, reason }) => {
            assert_eq!(requested, "no-such-tool-anywhere");
            assert_eq!(search_path, Some("/nonexistent-own".to_string()));
            assert!(!reason.is_empty());
        }
        other => panic!("unexpected {:?}", other),
    }
    let r = b.settle_lookup(Some("/p".to_string()), Err("not there".to_string()));
    match r {
        Err(Error::ToolNotFound { search_path, reason, .. }) => {
            assert_eq!(search_path, Some("/p".to_string()));
            assert_eq!(reason, "not there");
        }
        other => panic!("unexpected {:?}", other),
    }
    assert_eq!(b.settle_lookup(None, Ok("/bin/cc".to_string())).unwrap(), "/bin/cc");
}

#[test]
fn build_prefers_its_own_search_path() {
    let mut b = Build::new("cc", "note");
    assert_eq!(b.search_path(Some("/usr/bin")), Some("/usr/bin".to_string()));
    b.env("PATH", "/first");
    b.env("PATH", "/second");
    assert_eq!(b.search_path(Some("/usr/bin")), Some("/second".to_string()));
    b.arg("-x");
    b.current_dir("/work");
    let exe = b.finish("\\\\?\\C:\\tools\\cc.exe");
    assert_eq!(exe.path(), "C:\\tools\\cc.exe");
    assert_eq!(exe.requested(), "cc");
    assert_eq!(exe.note(), "note");
    assert_eq!(exe.args(), &vec!["-x".to_string()]);
    assert_eq!(exe.envs(), &vec![("PATH".to_string(), "/second".to_string())]);
}

#[test]
fn msvc_builder_prepends_directories() {
    let mut m = Msvc::new("cl.exe", "");
    m.include_dir("C:\\inc");
    m.lib("C:\\lib");
    m.path("C:\\bin");
    m.platform("x64");
    let b = m.clone().into_build(Some("C:\\old"), None, Some(""), ";").unwrap();
    let exe = b.finish("C:\\bin\\cl.exe");
    assert_eq!(
        exe.envs(),
        &vec![
            ("INCLUDE".to_string(), "C:\\inc;C:\\old".to_string()),
            ("LIB".to_string(), "C:\\lib;".to_string()),
            ("PATH".to_string(), "C:\\bin;".to_string()),
            ("Platform".to_string(), "x64".to_string()),
        ]
    );
    let mut bare = Msvc::new("cl.exe", "");
    bare.include_dir("C:\\inc");
    let exe = bare.into_build(None, None, None, ";").unwrap().finish("cl.exe");
    assert_eq!(exe.envs()[0], ("INCLUDE".to_string(), "C:\\inc;".to_string()));
    assert_eq!(exe.envs()[1], ("LIB".to_string(), String::new()));
    m.path("C:\\odd;dir");
    assert!(m.into_build(None, None, None, ";").is_none());
}

#[test]
fn classification_failed_error() {
    match ToolFamily::detect("/usr/bin/cc", "something else entirely") {
        Err(Error::ClassificationFailed { tool, output }) => {
            assert_eq!(tool, "/usr/bin/cc");
            assert_eq!(output, "something else entirely");
        }
        other => panic!("unexpected {:?}", other),
    }
}

#[test]
fn classification_by_name_and_output() {
    assert_eq!(ToolFamily::detect("C:\\VC\\bin\\cl.exe", "").unwrap(), ToolFamily::Msvc);
    assert_eq!(ToolFamily::from_name("/usr/bin/gcc"), None);
    assert_eq!(ToolFamily::from_probe_output("# 1 \"x.h\"\n\nclang\n"), Some(ToolFamily::Clang));
    assert_eq!(ToolFamily::from_probe_output("#line 1\nmsvc\n"), Some(ToolFamily::Msvc));
    assert_eq!(ToolFamily::from_probe_output("gnu"), Some(ToolFamily::Gnu));
    assert_eq!(ToolFamily::from_probe_output("gnus"), None);
}

#[test]
fn probe_infrastructure_failed_error() {
    match settled_answer(ProbeStep::Failed, &key("-Wall")) {
        Some(Err(Error::ProbeInfrastructureFailed { tool, flag, .. })) => {
            assert_eq!(tool, "/usr/bin/cc");
            assert_eq!(flag, "-Wall");
        }
        other => panic!("unexpected {:?}", other),
    }
    assert!(settled_answer(ProbeStep::Wait, &key("-Wall")).is_none());
    assert_eq!(settled_answer(ProbeStep::Known(false), &key("-Wall")).unwrap().unwrap(), false);
}

#[test]
fn probe_cache_runs_one_trial_and_keeps_the_answer() {
    let mut cache = FlagProbeCache::new();
    let k = key("-Wall");
    assert_eq!(cache.request(&k), ProbeStep::Spawn);
    assert_eq!(cache.request(&k), ProbeStep::Wait);
    assert_eq!(cache.request(&k), ProbeStep::Wait);
    cache.complete(&k, Some(true));
    assert_eq!(cache.request(&k), ProbeStep::Known(true));
    cache.complete(&k, Some(false));
    assert_eq!(cache.request(&k), ProbeStep::Known(true));
    assert_eq!(cache.entry(&k), Some(ProbeEntry::Done(true)));
    let other = ProbeKey { tool: "/usr/bin/cc".to_string(), args: vec!["/c".to_string()], flag: "-Wall".to_string() };
    assert_eq!(cache.entry(&other), None);
    assert_eq!(cache.request(&other), ProbeStep::Spawn);
    cache.complete(&other, None);
    assert_eq!(cache.request(&other), ProbeStep::Failed);
}

#[test]
fn unsupported_flag_is_dropped() {
    let stderr = "cc: flag '-Wflag-does-not-exist' not supported\n";
    let supported = probe_verdict(ToolFamily::Gnu, true, stderr);
    assert!(!supported);
    let mut cfg = linux();
    cfg.flags_supported.push("-Wflag-does-not-exist".to_string());
    let args = cfg.compile_flags(ToolFamily::Gnu, &vec![supported]);
    assert!(!has(&args, "-Wflag-does-not-exist"));
}

#[test]
fn probe_verdicts() {
    assert!(probe_verdict(ToolFamily::Gnu, true, ""));
    assert!(!probe_verdict(ToolFamily::Gnu, false, ""));
    assert!(!probe_verdict(ToolFamily::Clang, true, "warning: unknown warning option '-Wfoo'"));
    assert!(!probe_verdict(ToolFamily::Msvc, true, "cl : Command line warning D9002 : ignoring unknown option '-foo'"));
    assert!(probe_verdict(ToolFamily::Msvc, true, "foo.c\n"));
}

#[test]
fn probe_trial_arguments() {
    assert_eq!(
        probe_arguments(ToolFamily::Gnu, "-Wall", "flag_check.c", "flag_check.o"),
        vec!["-Wall", "-o", "flag_check.o", "-c", "flag_check.c"]
    );
    assert_eq!(
        probe_arguments(ToolFamily::Msvc, "/W4", "flag_check.c", "flag_check.obj"),
        vec!["/W4", "/Foflag_check.obj", "/c", "flag_check.c"]
    );
}

#[test]
fn assembly_is_deterministic() {
    let mut cfg = linux();
    cfg.debug = true;
    cfg.flags.push("-Wno-unused".to_string());
    let a = cfg.compile_flags(ToolFamily::Gnu, &Vec::new());
    let b = cfg.compile_flags(ToolFamily::Gnu, &Vec::new());
    assert_eq!(a, b);
}

#[test]
fn default_warnings_precede_user_flags() {
    let mut cfg = linux();
    cfg.warnings = true;
    cfg.flags.push("-Wno-missing-field-initializers".to_string());
    let args = cfg.compile_flags(ToolFamily::Gnu, &Vec::new());
    let w = args.iter().rposition(|x| x == "-Wall").unwrap();
    let u = args.iter().rposition(|x| x == "-Wno-missing-field-initializers").unwrap();
    assert!(w < u);
    let mut msvc = Config::new("x86_64-pc-windows-msvc", "x86_64-pc-windows-msvc");
    msvc.flags.push("/wd4100".to_string());
    let args = msvc.compile_flags(ToolFamily::Msvc, &Vec::new());
    let w = args.iter().rposition(|x| x == "/W4").unwrap();
    let u = args.iter().rposition(|x| x == "/wd4100").unwrap();
    assert!(w < u);
}

#[test]
fn override_variable_drops_default_warnings() {
    let mut cfg = linux();
    cfg.warnings = true;
    cfg.extra_warnings = true;
    cfg.cflags_env = Some("-O1 -pipe".to_string());
    let args = cfg.compile_flags(ToolFamily::Gnu, &Vec::new());
    assert!(!has(&args, "-Wall"));
    assert!(!has(&args, "-Wextra"));
    assert!(has(&args, "-O1"));
    assert!(has(&args, "-pipe"));
    cfg.cflags_env = Some(String::new());
    let args = cfg.compile_flags(ToolFamily::Gnu, &Vec::new());
    assert!(has(&args, "-Wall"));
}

#[test]
fn gnu_opt2_no_debug_no_warnings_scenario() {
    let mut cfg = linux();
    cfg.debug = false;
    cfg.warnings = false;
    let args = cfg.compile_flags(ToolFamily::Gnu, &Vec::new());
    assert!(has(&args, "-O2"));
    assert!(!has(&args, "-g"));
    assert!(!has(&args, "-Wall"));
}

#[test]
fn msvc_debug_without_optimization_scenario() {
    let mut cfg = Config::new("x86_64-pc-windows-msvc", "x86_64-pc-windows-msvc");
    cfg.debug = true;
    let args = cfg.compile_flags(ToolFamily::Msvc, &Vec::new());
    assert!(has(&args, "/Z7"));
    assert!(!has(&args, "/O2"));
}

#[test]
fn exact_gnu_flag_sequence() {
    let mut cfg = linux();
    cfg.debug = true;
    cfg.warnings_into_errors = true;
    cfg.include_directories.push("inc".to_string());
    cfg.flags.push("-v".to_string());
    cfg.definitions.push(cc::Define { name: "X".to_string(), value: Some("1".to_string()) });
    let args = cfg.compile_flags(ToolFamily::Gnu, &Vec::new());
    assert_eq!(
        args,
        vec![
            "-O2", "-ffunction-sections", "-fdata-sections", "-fPIC", "-g", "-m64", "-I", "inc",
            "-Wall", "-Wextra", "-v", "-DX=1", "-Werror",
        ]
    );
}

#[test]
fn exact_clang_and_msvc_sequences() {
    let mut cfg = Config::new("aarch64-apple-ios", "x86_64-apple-darwin");
    cfg.opt_level = OptLevel::MinSize;
    cfg.cpp = true;
    cfg.cpp_stdlib = Some("c++".to_string());
    let args = cfg.compile_flags(ToolFamily::Clang, &Vec::new());
    assert_eq!(args, vec!["-Oz", "-fPIC", "--target=aarch64-apple-ios", "-stdlib=libc++", "-Wall", "-Wextra"]);
    let mut cfg = Config::new("x86_64-pc-windows-msvc", "x86_64-pc-windows-msvc");
    cfg.opt_level = OptLevel::Size;
    cfg.static_crt = true;
    let args = cfg.compile_arguments(ToolFamily::Msvc, &Vec::new(), "a.c", "a.obj");
    assert_eq!(args, vec!["/MT", "/O1", "/W4", "/Foa.obj", "/c", "a.c"]);
}

#[test]
fn windows_gnu_has_no_default_pic() {
    let cfg = Config::new("x86_64-pc-windows-gnu", "x86_64-pc-windows-gnu");
    let args = cfg.compile_flags(ToolFamily::Gnu, &Vec::new());
    assert!(!has(&args, "-fPIC"));
    assert!(has(&args, "-O0"));
}

#[test]
fn gcc_min_size_uses_os() {
    let mut cfg = linux();
    cfg.opt_level = OptLevel::MinSize;
    let args = cfg.compile_flags(ToolFamily::Gnu, &Vec::new());
    assert!(has(&args, "-Os"));
    assert!(!has(&args, "-Oz"));
}

#[test]
fn cxxflags_tokens_follow_optimization() {
    let mut cfg = linux();
    cfg.cpp = true;
    cfg.cxxflags_env = Some("  -fno-rtti   -fno-exceptions ".to_string());
    let args = cfg.compile_flags(ToolFamily::Gnu, &Vec::new());
    assert_eq!(args[0], "-O2");
    let r = args.iter().position(|x| x == "-fno-rtti").unwrap();
    let e = args.iter().position(|x| x == "-fno-exceptions").unwrap();
    assert!(r < e);
}

#[test]
fn tokenizer_and_whitespace() {
    assert_eq!(split_whitespace("  a\u{3000}b\tc  "), vec!["a", "b", "c"]);
    assert!(split_whitespace("").is_empty());
    assert!(is_whitespace('\u{85}'));
    assert!(!is_whitespace('x'));
}

#[test]
fn target_triples() {
    assert_eq!(target_fields("x86_64-unknown-linux-gnu"), vec!["x86_64", "unknown", "linux", "gnu"]);
    assert_eq!(target_fields("wasm32"), vec!["wasm32"]);
    let t = TargetInfo::parse("i686-pc-windows-gnu");
    assert!(t.x86_32 && t.windows_gnu && !t.linux && !t.wide64 && !t.ios);
}

#[test]
fn file_stems() {
    assert_eq!(path_file_stem("/usr/bin/ccache"), "ccache");
    assert_eq!(path_file_stem("C:\\VC\\cl.exe"), "cl");
    assert_eq!(path_file_stem("a/lib.tar.gz"), "lib.tar");
    assert_eq!(path_file_stem(".hidden"), ".hidden");
}

#[test]
fn extended_prefix_is_stripped() {
    assert_eq!(strip_extended_prefix("\\\\?\\C:\\x\\cc.exe"), "C:\\x\\cc.exe");
    assert_eq!(strip_extended_prefix("/usr/bin/cc"), "/usr/bin/cc");
}

#[test]
fn exe_and_minimal_construction() {
    let exe = Exe::from_path("cc".to_string(), "/usr/bin/cc", "gnu").unwrap();
    assert_eq!(exe.path(), "/usr/bin/cc");
    assert_eq!(exe.family(), ToolFamily::Gnu);
    assert_eq!(exe.name(), "cc");
    assert!(exe.args().is_empty());
    assert!(Exe::from_path("cc".to_string(), "/usr/bin/cc", "").is_err());
    let em = Exe::emscripten(true, true, "C:\\Windows\\cmd.exe", "clang").unwrap();
    assert_eq!(em.name(), "Emscripten C++");
    assert_eq!(em.args(), &vec!["/c".to_string(), "em++.bat".to_string()]);
    assert_eq!(em.family(), ToolFamily::Clang);
    assert_eq!(emscripten_program(false, false), "emcc");
    assert_eq!(emscripten_program(true, true), "cmd");
    let m = Minimal::from_path("cl".to_string(), "C:\\VC\\cl.exe", "").unwrap();
    assert_eq!(m.family(), ToolFamily::Msvc);
    assert_eq!(m.path(), "C:\\VC\\cl.exe");
    let me = Minimal::emscripten(false, false, "/usr/bin/emcc", "clang").unwrap();
    assert_eq!(me.name(), "Emscripten C");
    assert!(me.args().is_empty());
}

#[test]
fn detection_probe_inputs() {
    let src = family_probe_source();
    assert!(src.contains("msvc") && src.contains("clang") && src.contains("gnu"));
    assert_eq!(family_probe_arguments("cc_rs_tool_family.h"), vec!["-E", "cc_rs_tool_family.h"]);
}
