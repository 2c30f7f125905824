//! Where each tool's distributions are published: for a (tool, version,
//! platform) the ordered list of candidate URLs, primary first, and the
//! archive format they serve.

use vstd::prelude::*;
use crate::platform::{Arch, Os, Platform};
use crate::text::{last_index_of, rfind_char};
use crate::tool::Tool;

verus! {

/// The container format of a downloaded distribution.
#[derive(Debug, Clone, Copy, PartialEq, Eq, Structural)]
pub enum FileType {
    Zip,
    TarGz,
    TarXz,
    /// A Windows installer.
    Exe,
}

/// The candidate sources of one distribution: the primary URL, then the
/// mirrors, each expected to serve the same bytes.
#[derive(Debug)]
pub struct DownloadInfo {
    pub primary_url: String,
    pub fallback_urls: Vec<String>,
    pub file_type: FileType,
}

pub open spec fn strings_view(v: Seq<String>) -> Seq<Seq<char>> {
    v.map_values(|s: String| s@)
}

impl DownloadInfo {
    /// Every candidate URL, in the order they are tried.
    pub open spec fn urls(&self) -> Seq<Seq<char>> {
        seq![self.primary_url@] + strings_view(self.fallback_urls@)
    }

    /// The candidate URLs in the order they are tried.
    pub fn all_urls(&self) -> (r: Vec<String>)
        ensures
            strings_view(r@) == self.urls(),
    {
        let mut r: Vec<String> = Vec::new();
        r.push(self.primary_url.clone());
        let mut i: usize = 0;
        while i < self.fallback_urls.len()
            invariant
                i <= self.fallback_urls@.len(),
                strings_view(r@) == seq![self.primary_url@] + strings_view(self.fallback_urls@.subrange(0, i as int)),
            decreases self.fallback_urls@.len() - i,
        {
            let u = self.fallback_urls[i].clone();
            let ghost before = r@;
            r.push(u);
            assert(self.fallback_urls@.subrange(0, i + 1) =~= self.fallback_urls@.subrange(0, i as int).push(self.fallback_urls@[i as int]));
            assert(strings_view(r@) =~= strings_view(before).push(u@));
            assert(strings_view(r@) =~= seq![self.primary_url@] + strings_view(self.fallback_urls@.subrange(0, i + 1)));
            i = i + 1;
        }
        assert(self.fallback_urls@.subrange(0, self.fallback_urls@.len() as int) =~= self.fallback_urls@);
        r
    }
}

/// Tools that can say where their distributions are published.
pub trait Downloadable {
    spec fn spec_download_info(&self, version: Seq<char>, platform: Platform) -> Option<(Seq<Seq<char>>, FileType)>;

    /// The candidate sources of `version` for `platform`, `None` where they
    /// cannot be named from these alone.
    fn get_download_info(&self, version: &str, platform: &Platform) -> (r: Option<DownloadInfo>)
        ensures
            r matches Some(info) ==> self.spec_download_info(version@, *platform) == Some((info.urls(), info.file_type)),
            r is None ==> self.spec_download_info(version@, *platform) is None;
}

/// Splits a list of candidate URLs into a primary URL and its mirrors.
fn info_from(urls: Vec<String>, file_type: FileType) -> (r: DownloadInfo)
    requires
        urls@.len() >= 1,
    ensures
        r.urls() == strings_view(urls@),
        r.file_type == file_type,
{
    let ghost orig = urls@;
    let mut urls = urls;
    let primary = urls.remove(0);
    assert(urls@ =~= orig.drop_first());
    assert(seq![primary@] + strings_view(urls@) =~= strings_view(orig));
    DownloadInfo { primary_url: primary, fallback_urls: urls, file_type }
}

/// Concatenation of two texts into a new string.
fn cat2(a: &str, b: &str) -> (r: String)
    ensures
        r@ == a@ + b@,
{
    let mut r = String::from_str(a);
    r.append(b);
    r
}

/// Concatenation of three texts into a new string.
fn cat3(a: &str, b: &str, c: &str) -> (r: String)
    ensures
        r@ == a@ + b@ + c@,
{
    let mut r = String::from_str(a);
    r.append(b);
    r.append(c);
    r
}

// ---- Node.js ----

pub open spec fn node_os(p: Platform) -> Seq<char> {
    match p.os {
        Os::Windows => "win"@,
        Os::Macos => "darwin"@,
        Os::Linux => "linux"@,
    }
}

pub open spec fn node_arch(p: Platform) -> Seq<char> {
    match p.arch {
        Arch::X64 => "x64"@,
        Arch::Arm64 => "arm64"@,
    }
}

/// Node ships a zip for Windows, xz tarballs for Linux, gzip tarballs for macOS.
pub open spec fn node_file_type(p: Platform) -> FileType {
    match p.os {
        Os::Windows => FileType::Zip,
        Os::Linux => FileType::TarXz,
        Os::Macos => FileType::TarGz,
    }
}

pub open spec fn file_ext(t: FileType) -> Seq<char> {
    match t {
        FileType::Zip => "zip"@,
        FileType::TarGz => "tar.gz"@,
        FileType::TarXz => "tar.xz"@,
        FileType::Exe => "exe"@,
    }
}

fn file_ext_str(t: FileType) -> (r: &'static str)
    ensures
        r@ == file_ext(t),
{
    match t {
        FileType::Zip => "zip",
        FileType::TarGz => "tar.gz",
        FileType::TarXz => "tar.xz",
        FileType::Exe => "exe",
    }
}

/// `node-v<version>-<os>-<arch>.<ext>`
pub open spec fn node_file_name(v: Seq<char>, p: Platform) -> Seq<char> {
    "node-v"@ + v + "-"@ + node_os(p) + "-"@ + node_arch(p) + "."@ + file_ext(node_file_type(p))
}

/// The official Node.js site, then the npmmirror mirror.
pub open spec fn node_urls(v: Seq<char>, p: Platform) -> Seq<Seq<char>> {
    seq![
        "https://nodejs.org/dist/v"@ + v + "/"@ + node_file_name(v, p),
        "https://npmmirror.com/mirrors/node/v"@ + v + "/"@ + node_file_name(v, p),
    ]
}

fn node_info(v: &str, p: &Platform) -> (r: DownloadInfo)
    ensures
        r.urls() == node_urls(v@, *p),
        r.file_type == node_file_type(*p),
{
    let os = match p.os {
        Os::Windows => "win",
        Os::Macos => "darwin",
        Os::Linux => "linux",
    };
    let arch = match p.arch {
        Arch::X64 => "x64",
        Arch::Arm64 => "arm64",
    };
    let ft = match p.os {
        Os::Windows => FileType::Zip,
        Os::Linux => FileType::TarXz,
        Os::Macos => FileType::TarGz,
    };
    let mut name = cat3("node-v", v, "-");
    name.append(os);
    name.append("-");
    name.append(arch);
    name.append(".");
    name.append(file_ext_str(ft));
    let mut a = cat3("https://nodejs.org/dist/v", v, "/");
    a.append(name.as_str());
    let mut b = cat3("https://npmmirror.com/mirrors/node/v", v, "/");
    b.append(name.as_str());
    let mut urls: Vec<String> = Vec::new();
    urls.push(a);
    urls.push(b);
    assert(strings_view(urls@) =~= node_urls(v@, *p));
    info_from(urls, ft)
}


// ---- Python ----

/// Python ships an embeddable zip for Windows and standalone gzip tarballs
/// elsewhere.
pub open spec fn python_file_type(p: Platform) -> FileType {
    if p.os == Os::Windows {
        FileType::Zip
    } else {
        FileType::TarGz
    }
}

pub open spec fn standalone_suffix(p: Platform) -> Seq<char> {
    match (p.os, p.arch) {
        (Os::Macos, Arch::X64) => "x86_64-apple-darwin-install_only.tar.gz"@,
        (Os::Macos, Arch::Arm64) => "aarch64-apple-darwin-install_only.tar.gz"@,
        (_, Arch::X64) => "x86_64-unknown-linux-gnu-install_only.tar.gz"@,
        (_, Arch::Arm64) => "aarch64-unknown-linux-gnu-install_only.tar.gz"@,
    }
}

/// The embeddable distribution on python.org and its mirror for Windows;
/// a python-build-standalone release elsewhere.
pub open spec fn python_urls(v: Seq<char>, p: Platform) -> Seq<Seq<char>> {
    if p.os == Os::Windows {
        let name = "python-"@ + v + (if p.arch == Arch::X64 { "-embed-amd64.zip"@ } else { "-embed-arm64.zip"@ });
        seq![
            "https://www.python.org/ftp/python/"@ + v + "/"@ + name,
            "https://npm.taobao.org/mirrors/python/"@ + v + "/"@ + name,
        ]
    } else {
        seq![
            "https://github.com/indygreg/python-build-standalone/releases/download/20231002/cpython-"@ + v
                + "+20231002-"@ + standalone_suffix(p),
        ]
    }
}

fn python_info(v: &str, p: &Platform) -> (r: DownloadInfo)
    ensures
        r.urls() == python_urls(v@, *p),
        r.file_type == python_file_type(*p),
{
    let mut urls: Vec<String> = Vec::new();
    if p.is_windows() {
        let tail = match p.arch {
            Arch::X64 => "-embed-amd64.zip",
            Arch::Arm64 => "-embed-arm64.zip",
        };
        let name = cat3("python-", v, tail);
        let mut a = cat3("https://www.python.org/ftp/python/", v, "/");
        a.append(name.as_str());
        let mut b = cat3("https://npm.taobao.org/mirrors/python/", v, "/");
        b.append(name.as_str());
        urls.push(a);
        urls.push(b);
        assert(strings_view(urls@) =~= python_urls(v@, *p));
        info_from(urls, FileType::Zip)
    } else {
        let suffix = match (p.os, p.arch) {
            (Os::Macos, Arch::X64) => "x86_64-apple-darwin-install_only.tar.gz",
            (Os::Macos, Arch::Arm64) => "aarch64-apple-darwin-install_only.tar.gz",
            (_, Arch::X64) => "x86_64-unknown-linux-gnu-install_only.tar.gz",
            (_, Arch::Arm64) => "aarch64-unknown-linux-gnu-install_only.tar.gz",
        };
        let mut a = cat3(
            "https://github.com/indygreg/python-build-standalone/releases/download/20231002/cpython-",
            v,
            "+20231002-",
        );
        a.append(suffix);
        urls.push(a);
        assert(strings_view(urls@) =~= python_urls(v@, *p));
        info_from(urls, FileType::TarGz)
    }
}

// ---- MySQL ----

/// The release series of a MySQL version: everything before its last dot.
pub open spec fn mysql_series(v: Seq<char>) -> Seq<char> {
    match last_index_of(v, '.') {
        Some(i) => v.subrange(0, i),
        None => v,
    }
}

pub open spec fn mysql_file_type(p: Platform) -> FileType {
    if p.os == Os::Windows {
        FileType::Zip
    } else {
        FileType::TarXz
    }
}

pub open spec fn mysql_file_name(v: Seq<char>, p: Platform) -> Seq<char> {
    if p.os == Os::Windows {
        "mysql-"@ + v + "-winx64.zip"@
    } else {
        "mysql-"@ + v + "-"@ + node_arch(p) + ".tar.xz"@
    }
}

/// On Windows the Aliyun mirror, then MySQL's download site, CDN and
/// archive; elsewhere the download site and the CDN.
pub open spec fn mysql_urls(v: Seq<char>, p: Platform) -> Seq<Seq<char>> {
    let path = mysql_series(v) + "/"@ + mysql_file_name(v, p);
    let official = seq![
        "https://dev.mysql.com/get/Downloads/MySQL-"@ + path,
        "https://cdn.mysql.com/Downloads/MySQL-"@ + path,
    ];
    if p.os == Os::Windows {
        seq!["https://mirrors.aliyun.com/mysql/MySQL-"@ + path] + official + seq![
            "https://archives.mysql.com/Downloads/MySQL-"@ + path,
        ]
    } else {
        official
    }
}

fn mysql_info(v: &str, p: &Platform) -> (r: DownloadInfo)
    ensures
        r.urls() == mysql_urls(v@, *p),
        r.file_type == mysql_file_type(*p),
{
    let series = match rfind_char(v, '.') {
        Some(i) => String::from_str(v.substring_char(0, i)),
        None => String::from_str(v),
    };
    let name = if p.is_windows() {
        cat3("mysql-", v, "-winx64.zip")
    } else {
        let arch = match p.arch {
            Arch::X64 => "x64",
            Arch::Arm64 => "arm64",
        };
        let mut n = cat3("mysql-", v, "-");
        n.append(arch);
        n.append(".tar.xz");
        n
    };
    let path = cat3(series.as_str(), "/", name.as_str());
    let mut urls: Vec<String> = Vec::new();
    if p.is_windows() {
        urls.push(cat2("https://mirrors.aliyun.com/mysql/MySQL-", path.as_str()));
    }
    urls.push(cat2("https://dev.mysql.com/get/Downloads/MySQL-", path.as_str()));
    urls.push(cat2("https://cdn.mysql.com/Downloads/MySQL-", path.as_str()));
    if p.is_windows() {
        urls.push(cat2("https://archives.mysql.com/Downloads/MySQL-", path.as_str()));
    }
    assert(strings_view(urls@) =~= mysql_urls(v@, *p));
    let ft = if p.is_windows() { FileType::Zip } else { FileType::TarXz };
    info_from(urls, ft)
}

// ---- MariaDB ----

pub open spec fn mariadb_file_type(p: Platform) -> FileType {
    if p.os == Os::Windows {
        FileType::Zip
    } else {
        FileType::TarGz
    }
}

pub open spec fn mariadb_file_name(v: Seq<char>, p: Platform) -> Seq<char> {
    match p.os {
        Os::Windows => "mariadb-"@ + v + "-winx64-debugsymbols.zip"@,
        Os::Macos => "mariadb-"@ + v + "-macos-x86_64.tar.gz"@,
        Os::Linux => "mariadb-"@ + v + "-linux-"@ + node_arch(p) + ".tar.gz"@,
    }
}

/// The directory of a MariaDB release that holds the platform's package.
pub open spec fn mariadb_dir(p: Platform) -> Seq<char> {
    match p.os {
        Os::Windows => "winx64-packages"@,
        Os::Macos => "bintar-x86_64"@,
        Os::Linux => "bintar-linux-"@ + node_arch(p),
    }
}

/// The Tsinghua mirror, the MariaDB archive, then the NLUUG mirror.
pub open spec fn mariadb_urls(v: Seq<char>, p: Platform) -> Seq<Seq<char>> {
    let name = mariadb_file_name(v, p);
    let in_dir = "/"@ + mariadb_dir(p) + "/"@ + name;
    seq![
        "https://mirrors.tuna.tsinghua.edu.cn/mariadb/mariadb-"@ + v + in_dir,
        if p.os == Os::Windows {
            "https://archive.mariadb.org/mariadb-"@ + v + "/"@ + name
        } else {
            "https://archive.mariadb.org/mariadb-"@ + v + in_dir
        },
        "https://ftp.nluug.nl/db/mariadb/mariadb-"@ + v + in_dir,
    ]
}

fn mariadb_info(v: &str, p: &Platform) -> (r: DownloadInfo)
    ensures
        r.urls() == mariadb_urls(v@, *p),
        r.file_type == mariadb_file_type(*p),
{
    let arch = match p.arch {
        Arch::X64 => "x64",
        Arch::Arm64 => "arm64",
    };
    let name = match p.os {
        Os::Windows => cat3("mariadb-", v, "-winx64-debugsymbols.zip"),
        Os::Macos => cat3("mariadb-", v, "-macos-x86_64.tar.gz"),
        Os::Linux => {
            let mut n = cat3("mariadb-", v, "-linux-");
            n.append(arch);
            n.append(".tar.gz");
            n
        },
    };
    let dir = match p.os {
        Os::Windows => String::from_str("winx64-packages"),
        Os::Macos => String::from_str("bintar-x86_64"),
        Os::Linux => cat2("bintar-linux-", arch),
    };
    let mut in_dir = cat3("/", dir.as_str(), "/");
    in_dir.append(name.as_str());
    let mut urls: Vec<String> = Vec::new();
    urls.push(cat3("https://mirrors.tuna.tsinghua.edu.cn/mariadb/mariadb-", v, in_dir.as_str()));
    if p.is_windows() {
        let mut a = cat3("https://archive.mariadb.org/mariadb-", v, "/");
        a.append(name.as_str());
        urls.push(a);
    } else {
        urls.push(cat3("https://archive.mariadb.org/mariadb-", v, in_dir.as_str()));
    }
    urls.push(cat3("https://ftp.nluug.nl/db/mariadb/mariadb-", v, in_dir.as_str()));
    assert(strings_view(urls@) =~= mariadb_urls(v@, *p));
    let ft = if p.is_windows() { FileType::Zip } else { FileType::TarGz };
    info_from(urls, ft)
}

// ---- Redis ----

pub open spec fn redis_file_type(p: Platform) -> FileType {
    if p.os == Os::Windows {
        FileType::Zip
    } else {
        FileType::TarGz
    }
}

/// Community Windows builds from GitHub; the official release tarball elsewhere.
pub open spec fn redis_urls(v: Seq<char>, p: Platform) -> Seq<Seq<char>> {
    if p.os == Os::Windows {
        seq![
            "https://github.com/tporadowski/redis/releases/download/v"@ + v + "/Redis-"@ + v + "-x64.zip"@,
            "https://github.com/tporadowski/redis/releases/download/"@ + v + "/Redis-"@ + v + "-x64.zip"@,
            "https://github.com/redis-windows/redis/releases/download/"@ + v + "/redis-"@ + v + ".zip"@,
        ]
    } else {
        seq!["https://download.redis.io/releases/redis-"@ + v + ".tar.gz"@]
    }
}

fn redis_info(v: &str, p: &Platform) -> (r: DownloadInfo)
    ensures
        r.urls() == redis_urls(v@, *p),
        r.file_type == redis_file_type(*p),
{
    let mut urls: Vec<String> = Vec::new();
    if p.is_windows() {
        let mut a = cat3("https://github.com/tporadowski/redis/releases/download/v", v, "/Redis-");
        a.append(v);
        a.append("-x64.zip");
        let mut b = cat3("https://github.com/tporadowski/redis/releases/download/", v, "/Redis-");
        b.append(v);
        b.append("-x64.zip");
        let mut c = cat3("https://github.com/redis-windows/redis/releases/download/", v, "/redis-");
        c.append(v);
        c.append(".zip");
        urls.push(a);
        urls.push(b);
        urls.push(c);
        assert(strings_view(urls@) =~= redis_urls(v@, *p));
        info_from(urls, FileType::Zip)
    } else {
        urls.push(cat3("https://download.redis.io/releases/redis-", v, ".tar.gz"));
        assert(strings_view(urls@) =~= redis_urls(v@, *p));
        info_from(urls, FileType::TarGz)
    }
}

// ---- Java ----

pub open spec fn java_os(p: Platform) -> Seq<char> {
    match p.os {
        Os::Windows => "windows"@,
        Os::Macos => "macos"@,
        Os::Linux => "linux"@,
    }
}

pub open spec fn java_arch(p: Platform) -> Seq<char> {
    match p.arch {
        Arch::X64 => "x64"@,
        Arch::Arm64 => "aarch64"@,
    }
}

/// The Adoptium query that names the newest JDK archive of a feature release.
pub open spec fn spec_java_release_query(v: Seq<char>, p: Platform) -> Seq<char> {
    "https://api.adoptium.net/v3/assets/feature_releases/"@ + v + "/ga?architecture="@ + java_arch(p)
        + "&os="@ + java_os(p)
        + "&image_type=jdk&archive_type=zip&sort_method=DEFAULT&sort_order=DESC&vendor=eclipse"@
}

fn java_names(p: &Platform) -> (r: (&'static str, &'static str))
    ensures
        r.0@ == java_os(*p),
        r.1@ == java_arch(*p),
{
    let os = match p.os {
        Os::Windows => "windows",
        Os::Macos => "macos",
        Os::Linux => "linux",
    };
    let arch = match p.arch {
        Arch::X64 => "x64",
        Arch::Arm64 => "aarch64",
    };
    (os, arch)
}

/// The URL of the Adoptium query whose answer names the JDK archive of
/// feature release `version`.
pub fn java_release_query(version: &str, platform: &Platform) -> (r: String)
    ensures
        r@ == spec_java_release_query(version@, *platform),
{
    let (os, arch) = java_names(platform);
    let mut r = cat3("https://api.adoptium.net/v3/assets/feature_releases/", version, "/ga?architecture=");
    r.append(arch);
    r.append("&os=");
    r.append(os);
    r.append("&image_type=jdk&archive_type=zip&sort_method=DEFAULT&sort_order=DESC&vendor=eclipse");
    r
}

#[verifier::external_type_specification]
#[verifier::external_body]
pub struct ExJsonValue(serde_json::Value);

/// Whether `serde_json` accepts a text as one JSON value.
pub uninterp spec fn json_accepts(text: Seq<char>) -> bool;

/// The string values of the JSON value a text holds, by JSON pointer.
pub uninterp spec fn json_doc_strings(text: Seq<char>) -> Map<Seq<char>, Seq<char>>;

/// The string values a JSON value holds, by JSON pointer.
pub uninterp spec fn json_strings(v: serde_json::Value) -> Map<Seq<char>, Seq<char>>;

/// Relies on `serde_json::from_str`: reads a JSON value, and fails exactly
/// on a text that is no JSON value.
#[verifier::external_body]
fn parse_json(text: &str) -> (r: Option<serde_json::Value>)
    ensures
        r is Some == json_accepts(text@),
        r matches Some(v) ==> json_strings(v) == json_doc_strings(text@),
{
    serde_json::from_str::<serde_json::Value>(text).ok()
}

/// Relies on `serde_json::Value::pointer`: the value at a JSON pointer,
/// when it is a string.
#[verifier::external_body]
fn json_string_at(v: &serde_json::Value, pointer: &str) -> (r: Option<String>)
    ensures
        r matches Some(s) ==> json_strings(*v).contains_key(pointer@) && json_strings(*v)[pointer@] == s@,
        r is None ==> !json_strings(*v).contains_key(pointer@),
{
    match v.pointer(pointer) {
        Some(serde_json::Value::String(s)) => Some(s.clone()),
        _ => None,
    }
}

/// Where the archive's name stands in the Adoptium reply: the package of
/// the first binary of the first release.
pub open spec fn archive_pointer() -> Seq<char> {
    "/0/binaries/0/package/name"@
}

/// The JDK archive that an Adoptium reply names, if it is JSON and names one.
pub open spec fn spec_java_archive(reply: Seq<char>) -> Option<Seq<char>> {
    if json_accepts(reply) && json_doc_strings(reply).contains_key(archive_pointer()) {
        Some(json_doc_strings(reply)[archive_pointer()])
    } else {
        None
    }
}

/// The JDK archive named by the Adoptium reply to a release query: the
/// package name of the first binary of the first release.
pub fn java_archive_name(reply: &str) -> (r: Option<String>)
    ensures
        r matches Some(s) ==> spec_java_archive(reply@) == Some(s@),
        r is None ==> spec_java_archive(reply@) is None,
{
    match parse_json(reply) {
        Some(v) => json_string_at(&v, "/0/binaries/0/package/name"),
        None => None,
    }
}

/// The Tsinghua mirror of Adoptium, which publishes each archive under
/// `<version>/jdk/<arch>/<os>/<file>`.
pub open spec fn java_urls(v: Seq<char>, p: Platform, file: Seq<char>) -> Seq<Seq<char>> {
    seq![
        "https://mirrors.tuna.tsinghua.edu.cn/Adoptium/"@ + v + "/jdk/"@ + java_arch(p) + "/"@ + java_os(p) + "/"@
            + file,
    ]
}

/// The sources of the JDK archive `file`, once the release query has named it.
pub fn java_download_info(version: &str, platform: &Platform, file: &str) -> (r: DownloadInfo)
    ensures
        r.urls() == java_urls(version@, *platform, file@),
        r.file_type == FileType::Zip,
{
    let (os, arch) = java_names(platform);
    let mut u = cat3("https://mirrors.tuna.tsinghua.edu.cn/Adoptium/", version, "/jdk/");
    u.append(arch);
    u.append("/");
    u.append(os);
    u.append("/");
    u.append(file);
    let mut urls: Vec<String> = Vec::new();
    urls.push(u);
    assert(strings_view(urls@) =~= java_urls(version@, *platform, file@));
    info_from(urls, FileType::Zip)
}

// ---- every tool ----

/// The sources of each tool; Java's depend on the archive name that its
/// release query answers, so they are not named here.
pub open spec fn spec_tool_sources(t: Tool, v: Seq<char>, p: Platform) -> Option<(Seq<Seq<char>>, FileType)> {
    match t {
        Tool::Node => Some((node_urls(v, p), node_file_type(p))),
        Tool::Java => None,
        Tool::Python => Some((python_urls(v, p), python_file_type(p))),
        Tool::MySql => Some((mysql_urls(v, p), mysql_file_type(p))),
        Tool::MariaDb => Some((mariadb_urls(v, p), mariadb_file_type(p))),
        Tool::Redis => Some((redis_urls(v, p), redis_file_type(p))),
    }
}

impl Downloadable for Tool {
    open spec fn spec_download_info(&self, version: Seq<char>, platform: Platform) -> Option<(Seq<Seq<char>>, FileType)> {
        spec_tool_sources(*self, version, platform)
    }

    fn get_download_info(&self, version: &str, platform: &Platform) -> (r: Option<DownloadInfo>) {
        match self {
            Tool::Node => Some(node_info(version, platform)),
            Tool::Java => None,
            Tool::Python => Some(python_info(version, platform)),
            Tool::MySql => Some(mysql_info(version, platform)),
            Tool::MariaDb => Some(mariadb_info(version, platform)),
            Tool::Redis => Some(redis_info(version, platform)),
        }
    }
}

} // verus!
