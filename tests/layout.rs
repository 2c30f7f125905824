use enman::dispatch::{check_installed, dispatch_target, exit_status, remedy, shim_tool, DispatchError};
use enman::binding::{BindingScope, ConfigurationError};
use enman::localization::{language_of, Localizer};
use enman::paths::{exe_name, EnvManPaths};
use enman::platform::{Arch, Os, Platform};
use enman::redis::{get_redis_install_path, is_redis_installed};
use enman::tool::Tool;
use enman::uninstall::{plan_uninstall, UninstallPlan};

const LINUX_X64: Platform = Platform { os: Os::Linux, arch: Arch::X64 };
const WIN_X64: Platform = Platform { os: Os::Windows, arch: Arch::X64 };

#[test]
fn tool_names_ignore_case() {
    assert_eq!(Tool::from_str("NoDe"), Some(Tool::Node));
    assert_eq!(Tool::from_str("MYSQL"), Some(Tool::MySql));
    assert_eq!(Tool::from_str("mariadb"), Some(Tool::MariaDb));
    assert_eq!(Tool::from_str("ruby"), None);
    assert_eq!(Tool::Redis.name(), "redis");
}

#[test]
fn platform_from_rust_names() {
    assert_eq!(Platform::detect("linux", "x86_64"), Some(LINUX_X64));
    assert_eq!(Platform::detect("windows", "aarch64"), Some(Platform { os: Os::Windows, arch: Arch::Arm64 }));
    assert_eq!(Platform::detect("freebsd", "x86_64"), Some(LINUX_X64));
    assert_eq!(Platform::detect("linux", "riscv64"), None);
}

#[test]
fn layout_paths() {
    let p = EnvManPaths::at_home("/home/u");
    assert_eq!(p.root, "/home/u/.enman");
    assert_eq!(p.installs, "/home/u/.enman/installs");
    assert_eq!(p.global_version_file("node"), "/home/u/.enman/global/node");
    assert_eq!(p.install_dir("java"), "/home/u/.enman/installs/java");
    assert_eq!(p.install_bin_path("node", "20.1.0", &LINUX_X64), "/home/u/.enman/installs/node/20.1.0/bin");
    assert_eq!(p.install_bin_path("node", "20.1.0", &WIN_X64), "/home/u/.enman/installs/node/20.1.0");
    assert_eq!(p.install_bin_path("python", "3.11.5", &LINUX_X64), "/home/u/.enman/installs/python/3.11.5/bin");
    assert_eq!(p.binary_path("python", "3.11.5", &LINUX_X64), "/home/u/.enman/installs/python/3.11.5/bin/python3");
    assert_eq!(p.binary_path("python", "3.11.5", &WIN_X64), "/home/u/.enman/installs/python/3.11.5/python.exe");
    assert_eq!(p.binary_path("redis", "7.2.4", &LINUX_X64), "/home/u/.enman/installs/redis/7.2.4/bin/redis-server");
    assert_eq!(p.binary_path("redis", "7.2.4", &WIN_X64), "/home/u/.enman/installs/redis/7.2.4/redis-server.exe");
    assert_eq!(p.binary_path("java", "17", &WIN_X64), "/home/u/.enman/installs/java/17/bin/java.exe");
    assert_eq!(p.shim_path("node", &LINUX_X64), "/home/u/.enman/shims/node");
    assert_eq!(p.staging_dir("node", "20.1.0"), "/home/u/.enman/staging/node@20.1.0");
    assert_eq!(exe_name("node", &WIN_X64), "node.exe");
}

#[test]
fn redis_install_path_is_under_bin() {
    if let Ok(p) = get_redis_install_path("7.2.4", &LINUX_X64) {
        assert!(p.ends_with("/.enman/installs/redis/7.2.4/bin"));
    }
}

#[test]
fn absent_redis_version_is_not_installed() {
    assert!(!is_redis_installed("0.0.0-not-a-release", &LINUX_X64));
}

#[test]
fn child_exit_code_is_propagated() {
    assert_eq!(exit_status(Some(7)), 7);
    assert_eq!(exit_status(Some(0)), 0);
    assert_eq!(exit_status(None), 1);
}

#[test]
fn shim_dispatches_to_the_resolved_binary() {
    let p = EnvManPaths::at_home("/h");
    let t = dispatch_target(&p, &LINUX_X64, "node", Some("node@18.0.0"), None, Some("20.0.0")).unwrap();
    assert_eq!(t.version, "18.0.0");
    assert_eq!(t.scope, BindingScope::Directory);
    assert_eq!(t.binary, "/h/.enman/installs/node/18.0.0/bin/node");
    assert_eq!(
        dispatch_target(&p, &LINUX_X64, "node", None, None, None),
        Err(DispatchError::Configuration(ConfigurationError::NoBinding))
    );
    assert_eq!(check_installed(false), Err(DispatchError::NotInstalled));
    assert_eq!(check_installed(true), Ok(()));
    assert_eq!(remedy("node", "18.0.0", DispatchError::NotInstalled), "Run: em install node@18.0.0");
    assert_eq!(
        remedy("node", "", DispatchError::Configuration(ConfigurationError::NoBinding)),
        "Run: em global node@<version>"
    );
    assert_eq!(shim_tool("node"), Some("node".to_string()));
    assert_eq!(shim_tool("em"), None);
}

#[test]
fn uninstall_refuses_the_active_global_version() {
    assert_eq!(
        plan_uninstall("node", "18.0.0", true, Some("18.0.0\n")),
        Err(ConfigurationError::ActiveGlobalBinding)
    );
    assert_eq!(plan_uninstall("node", "16.0.0", true, Some("18.0.0")), Ok(UninstallPlan::Remove));
    assert_eq!(plan_uninstall("node", "16.0.0", true, None), Ok(UninstallPlan::Remove));
    assert_eq!(plan_uninstall("node", "16.0.0", false, Some("16.0.0")), Ok(UninstallPlan::NotInstalled));
    assert_eq!(plan_uninstall("node", "1@2", true, Some(" 1@2\n")), Err(ConfigurationError::ActiveGlobalBinding));
    assert_eq!(plan_uninstall("node", "18.0.0", true, Some("node@18.0.0")), Err(ConfigurationError::ActiveGlobalBinding));
}

#[test]
fn translations_fall_back_to_english_then_the_key() {
    let zh = Localizer::new("zh");
    assert_eq!(zh.t("Installing"), "正在安装");
    let en = Localizer::new("en");
    assert_eq!(en.t("Installing"), "Installing");
    let fr = Localizer::new("fr");
    assert_eq!(fr.t("local"), "local");
    assert_eq!(fr.t("no such key"), "no such key");
    assert_eq!(language_of("zh_CN.UTF-8"), "zh");
    assert_eq!(language_of("en_US"), "en");
}
