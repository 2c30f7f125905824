use enman::fetch::{transient, AttemptOutcome, FetchStep, Fetcher, RETRY_LIMIT};
use enman::platform::{Arch, Os, Platform};
use enman::sources::{java_archive_name, java_download_info, java_release_query, Downloadable, FileType};
use enman::tool::Tool;

const LINUX_X64: Platform = Platform { os: Os::Linux, arch: Arch::X64 };
const WIN_X64: Platform = Platform { os: Os::Windows, arch: Arch::X64 };

#[test]
fn not_found_on_first_source_falls_back_to_second() {
    let (mut f, step) = Fetcher::start(2, RETRY_LIMIT);
    assert_eq!(step, FetchStep::Try { candidate: 0, attempt: 1, after_backoff: false });
    let step = f.record(AttemptOutcome::HttpStatus(404));
    assert_eq!(step, FetchStep::Try { candidate: 1, attempt: 1, after_backoff: false });
    let step = f.record(AttemptOutcome::Success);
    assert_eq!(step, FetchStep::Fetched { candidate: 1 });
}

#[test]
fn transient_failures_are_retried_up_to_the_limit() {
    let (mut f, _) = Fetcher::start(2, 3);
    assert_eq!(f.record(AttemptOutcome::Timeout), FetchStep::Try { candidate: 0, attempt: 2, after_backoff: true });
    assert_eq!(
        f.record(AttemptOutcome::HttpStatus(503)),
        FetchStep::Try { candidate: 0, attempt: 3, after_backoff: true }
    );
    assert_eq!(f.record(AttemptOutcome::Network), FetchStep::Try { candidate: 1, attempt: 1, after_backoff: false });
    assert_eq!(
        f.record(AttemptOutcome::HttpStatus(404)),
        FetchStep::Exhausted { last_failure: Some(AttemptOutcome::HttpStatus(404)) }
    );
}

#[test]
fn no_sources_is_exhausted_at_once() {
    let (_, step) = Fetcher::start(0, 3);
    assert_eq!(step, FetchStep::Exhausted { last_failure: None });
}

#[test]
fn transient_classification() {
    assert!(transient(AttemptOutcome::HttpStatus(500)));
    assert!(transient(AttemptOutcome::HttpStatus(429)));
    assert!(transient(AttemptOutcome::BodyError));
    assert!(!transient(AttemptOutcome::HttpStatus(404)));
    assert!(!transient(AttemptOutcome::Success));
}

#[test]
fn node_sources_on_linux() {
    let info = Tool::Node.get_download_info("20.10.0", &LINUX_X64).unwrap();
    assert_eq!(info.primary_url, "https://nodejs.org/dist/v20.10.0/node-v20.10.0-linux-x64.tar.xz");
    assert_eq!(info.fallback_urls, vec!["https://npmmirror.com/mirrors/node/v20.10.0/node-v20.10.0-linux-x64.tar.xz".to_string()]);
    assert_eq!(info.file_type, FileType::TarXz);
}

#[test]
fn node_sources_on_windows_are_zips() {
    let info = Tool::Node.get_download_info("18.0.0", &WIN_X64).unwrap();
    assert_eq!(info.primary_url, "https://nodejs.org/dist/v18.0.0/node-v18.0.0-win-x64.zip");
    assert_eq!(info.file_type, FileType::Zip);
}

#[test]
fn python_sources() {
    let info = Tool::Python.get_download_info("3.11.5", &WIN_X64).unwrap();
    assert_eq!(info.primary_url, "https://www.python.org/ftp/python/3.11.5/python-3.11.5-embed-amd64.zip");
    assert_eq!(info.fallback_urls, vec!["https://npm.taobao.org/mirrors/python/3.11.5/python-3.11.5-embed-amd64.zip".to_string()]);
    let info = Tool::Python.get_download_info("3.11.5", &Platform { os: Os::Macos, arch: Arch::Arm64 }).unwrap();
    assert_eq!(
        info.primary_url,
        "https://github.com/indygreg/python-build-standalone/releases/download/20231002/cpython-3.11.5+20231002-aarch64-apple-darwin-install_only.tar.gz"
    );
    assert!(info.fallback_urls.is_empty());
    assert_eq!(info.file_type, FileType::TarGz);
}

#[test]
fn mysql_sources_use_the_release_series() {
    let info = Tool::MySql.get_download_info("8.0.36", &LINUX_X64).unwrap();
    assert_eq!(info.primary_url, "https://dev.mysql.com/get/Downloads/MySQL-8.0/mysql-8.0.36-x64.tar.xz");
    assert_eq!(info.fallback_urls, vec!["https://cdn.mysql.com/Downloads/MySQL-8.0/mysql-8.0.36-x64.tar.xz".to_string()]);
    let info = Tool::MySql.get_download_info("8.0.36", &WIN_X64).unwrap();
    assert_eq!(info.primary_url, "https://mirrors.aliyun.com/mysql/MySQL-8.0/mysql-8.0.36-winx64.zip");
    assert_eq!(info.fallback_urls.len(), 3);
    assert_eq!(info.fallback_urls[2], "https://archives.mysql.com/Downloads/MySQL-8.0/mysql-8.0.36-winx64.zip");
}

#[test]
fn mariadb_sources() {
    let info = Tool::MariaDb.get_download_info("11.4.2", &LINUX_X64).unwrap();
    assert_eq!(
        info.primary_url,
        "https://mirrors.tuna.tsinghua.edu.cn/mariadb/mariadb-11.4.2/bintar-linux-x64/mariadb-11.4.2-linux-x64.tar.gz"
    );
    assert_eq!(
        info.fallback_urls,
        vec![
            "https://archive.mariadb.org/mariadb-11.4.2/bintar-linux-x64/mariadb-11.4.2-linux-x64.tar.gz".to_string(),
            "https://ftp.nluug.nl/db/mariadb/mariadb-11.4.2/bintar-linux-x64/mariadb-11.4.2-linux-x64.tar.gz".to_string(),
        ]
    );
    let info = Tool::MariaDb.get_download_info("11.4.2", &WIN_X64).unwrap();
    assert_eq!(info.fallback_urls[0], "https://archive.mariadb.org/mariadb-11.4.2/mariadb-11.4.2-winx64-debugsymbols.zip");
}

#[test]
fn redis_sources() {
    let info = Tool::Redis.get_download_info("7.2.4", &LINUX_X64).unwrap();
    assert_eq!(info.primary_url, "https://download.redis.io/releases/redis-7.2.4.tar.gz");
    let info = Tool::Redis.get_download_info("7.2.4", &WIN_X64).unwrap();
    assert_eq!(info.primary_url, "https://github.com/tporadowski/redis/releases/download/v7.2.4/Redis-7.2.4-x64.zip");
    assert_eq!(info.all_urls().len(), 3);
}

#[test]
fn java_sources_need_the_release_query() {
    assert!(Tool::Java.get_download_info("17", &LINUX_X64).is_none());
    assert_eq!(
        java_release_query("17", &WIN_X64),
        "https://api.adoptium.net/v3/assets/feature_releases/17/ga?architecture=x64&os=windows&image_type=jdk&archive_type=zip&sort_method=DEFAULT&sort_order=DESC&vendor=eclipse"
    );
    let info = java_download_info("17", &Platform { os: Os::Linux, arch: Arch::Arm64 }, "OpenJDK17U.zip");
    assert_eq!(info.primary_url, "https://mirrors.tuna.tsinghua.edu.cn/Adoptium/17/jdk/aarch64/linux/OpenJDK17U.zip");
    assert_eq!(info.file_type, FileType::Zip);
}

#[test]
fn java_archive_name_is_read_from_the_reply() {
    let reply = r#"[{"binaries":[{"package":{"name":"OpenJDK17U-jdk_x64_windows.zip"}}]}]"#;
    assert_eq!(java_archive_name(reply), Some("OpenJDK17U-jdk_x64_windows.zip".to_string()));
    assert_eq!(java_archive_name("[]"), None);
    assert_eq!(java_archive_name("not json"), None);
}
