use enman::extract::{archive_format, choose_root, executables, promotion_moves, ExtractError, StagedEntry};
use enman::pipeline::{AcquisitionError, InstallAction, InstallEvent, InstallReport, Installer, Phase};
use enman::platform::{Arch, Os, Platform};
use enman::sources::FileType;
use enman::tool::Tool;

const LINUX_X64: Platform = Platform { os: Os::Linux, arch: Arch::X64 };

fn fresh(tool: Tool) -> Installer {
    let (i, a) = Installer::new(tool, "20.10.0", &LINUX_X64);
    assert_eq!(a, InstallAction::CheckBinary);
    i
}

#[test]
fn installed_version_is_reported_without_fetching() {
    let mut i = fresh(Tool::Node);
    let a = i.step(InstallEvent::BinaryPresent(true));
    assert_eq!(a, InstallAction::Finish(Ok(InstallReport { already_installed: true, bootstrap_warning: false })));
    assert_eq!(i.progress.phase, Phase::Finished);
    assert!(!i.accepts(&InstallEvent::Downloaded));
}

#[test]
fn full_install_publishes_after_verification() {
    let mut i = fresh(Tool::Node);
    assert_eq!(i.step(InstallEvent::BinaryPresent(false)), InstallAction::AcquireLock);
    assert_eq!(i.step(InstallEvent::Locked), InstallAction::CheckBinary);
    assert_eq!(i.step(InstallEvent::BinaryPresent(false)), InstallAction::Download);
    assert_eq!(i.sources.as_ref().unwrap().file_type, FileType::TarXz);
    assert_eq!(i.step(InstallEvent::Downloaded), InstallAction::Extract(FileType::TarXz, false));
    assert_eq!(i.step(InstallEvent::Extracted(Ok(()))), InstallAction::CheckStagedBinary);
    assert_eq!(i.step(InstallEvent::StagedBinary(true)), InstallAction::Publish);
    assert!(!i.progress.published);
    let a = i.step(InstallEvent::Published(true));
    assert_eq!(a, InstallAction::Finish(Ok(InstallReport { already_installed: false, bootstrap_warning: false })));
    assert!(i.progress.published);
}

#[test]
fn lock_winner_installed_meanwhile() {
    let mut i = fresh(Tool::Python);
    i.step(InstallEvent::BinaryPresent(false));
    i.step(InstallEvent::Locked);
    let a = i.step(InstallEvent::BinaryPresent(true));
    assert_eq!(a, InstallAction::Finish(Ok(InstallReport { already_installed: true, bootstrap_warning: false })));
}

fn to_download(i: &mut Installer) {
    i.step(InstallEvent::BinaryPresent(false));
    i.step(InstallEvent::Locked);
    i.step(InstallEvent::BinaryPresent(false));
}

#[test]
fn failure_at_each_checkpoint_publishes_nothing() {
    let mut i = fresh(Tool::Node);
    to_download(&mut i);
    let a = i.step(InstallEvent::DownloadFailed(Some(enman::fetch::AttemptOutcome::HttpStatus(404))));
    assert_eq!(
        a,
        InstallAction::Finish(Err(AcquisitionError::SourcesExhausted(Some(enman::fetch::AttemptOutcome::HttpStatus(404)))))
    );
    assert!(!i.progress.published);

    let mut i = fresh(Tool::Node);
    to_download(&mut i);
    i.step(InstallEvent::Downloaded);
    let a = i.step(InstallEvent::Extracted(Err(ExtractError::Malformed)));
    assert_eq!(a, InstallAction::Finish(Err(AcquisitionError::Archive(ExtractError::Malformed))));
    assert!(!i.progress.published);

    let mut i = fresh(Tool::Node);
    to_download(&mut i);
    i.step(InstallEvent::Downloaded);
    i.step(InstallEvent::Extracted(Ok(())));
    let a = i.step(InstallEvent::StagedBinary(false));
    assert_eq!(a, InstallAction::Finish(Err(AcquisitionError::VerificationFailed)));
    assert!(!i.progress.published);

    let mut i = fresh(Tool::Node);
    to_download(&mut i);
    i.step(InstallEvent::Downloaded);
    i.step(InstallEvent::Extracted(Ok(())));
    i.step(InstallEvent::StagedBinary(true));
    let a = i.step(InstallEvent::Published(false));
    assert_eq!(a, InstallAction::Finish(Err(AcquisitionError::PublishFailed)));
    assert!(!i.progress.published);
}

#[test]
fn windows_python_archive_is_flat() {
    let win = Platform { os: Os::Windows, arch: Arch::X64 };
    let (mut i, _) = Installer::new(Tool::Python, "3.11.5", &win);
    to_download(&mut i);
    assert_eq!(i.step(InstallEvent::Downloaded), InstallAction::Extract(FileType::Zip, true));
    let (mut j, _) = Installer::new(Tool::Python, "3.11.5", &LINUX_X64);
    to_download(&mut j);
    assert_eq!(j.step(InstallEvent::Downloaded), InstallAction::Extract(FileType::TarGz, false));
}

#[test]
fn java_install_asks_for_the_archive_name_first() {
    let (mut i, _) = Installer::new(Tool::Java, "17", &LINUX_X64);
    i.step(InstallEvent::BinaryPresent(false));
    i.step(InstallEvent::Locked);
    assert_eq!(i.step(InstallEvent::BinaryPresent(false)), InstallAction::QueryRelease);
    assert_eq!(i.step(InstallEvent::ArchiveNamed(Some("jdk.zip".to_string()))), InstallAction::Download);
    assert_eq!(
        i.sources.as_ref().unwrap().primary_url,
        "https://mirrors.tuna.tsinghua.edu.cn/Adoptium/17/jdk/x64/linux/jdk.zip"
    );
    let (mut j, _) = Installer::new(Tool::Java, "99", &LINUX_X64);
    to_download(&mut j);
    assert_eq!(j.step(InstallEvent::ArchiveNamed(None)), InstallAction::Finish(Err(AcquisitionError::NoRelease)));
}

#[test]
fn database_setup_failure_is_only_a_warning() {
    let (mut i, _) = Installer::new(Tool::MariaDb, "11.4.2", &LINUX_X64);
    to_download(&mut i);
    i.step(InstallEvent::Downloaded);
    i.step(InstallEvent::Extracted(Ok(())));
    i.step(InstallEvent::StagedBinary(true));
    assert_eq!(i.step(InstallEvent::Published(true)), InstallAction::Bootstrap);
    let a = i.step(InstallEvent::Bootstrapped(false));
    assert_eq!(a, InstallAction::Finish(Ok(InstallReport { already_installed: false, bootstrap_warning: true })));
}

#[test]
fn sole_top_level_directory_is_flattened() {
    let entries = vec![StagedEntry { name: "X".to_string(), is_dir: true }];
    assert_eq!(choose_root(&entries), Ok(0));
    let moves = promotion_moves("/tmp/stage/X", "/opt/dest", &vec!["bin".to_string()]);
    assert_eq!(moves.len(), 1);
    assert_eq!(moves[0].from, "/tmp/stage/X/bin");
    assert_eq!(moves[0].to, "/opt/dest/bin");
}

#[test]
fn first_directory_is_the_root_among_several_entries() {
    let entries = vec![
        StagedEntry { name: "README".to_string(), is_dir: false },
        StagedEntry { name: "jdk-17".to_string(), is_dir: true },
        StagedEntry { name: "other".to_string(), is_dir: true },
    ];
    assert_eq!(choose_root(&entries), Ok(1));
    let files = vec![StagedEntry { name: "a.txt".to_string(), is_dir: false }];
    assert_eq!(choose_root(&files), Err(ExtractError::NoTopLevelDirectory));
    assert_eq!(choose_root(&Vec::new()), Err(ExtractError::NoTopLevelDirectory));
}

#[test]
fn archive_formats_by_extension() {
    assert_eq!(archive_format("zip"), Ok(FileType::Zip));
    assert_eq!(archive_format("tgz"), Ok(FileType::TarGz));
    assert_eq!(archive_format("tar.gz"), Ok(FileType::TarGz));
    assert_eq!(archive_format("tar.xz"), Ok(FileType::TarXz));
    assert_eq!(archive_format("exe"), Err(ExtractError::UnknownFormat));
}

#[test]
fn known_executables_per_tool() {
    assert_eq!(executables(Tool::Node), vec!["bin/node", "bin/npm", "bin/npx"]);
    assert_eq!(executables(Tool::Python), vec!["bin/python3"]);
    assert!(executables(Tool::Redis).is_empty());
}
