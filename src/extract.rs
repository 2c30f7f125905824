//! The decisions of the archive extractor. An archive is unpacked into a
//! staging directory; one of its top-level directories is taken as the
//! root, and the root's children are promoted into the destination.

use vstd::prelude::*;
use crate::paths::{join, join_path};
use crate::sources::FileType;
use crate::text::str_eq;
use crate::platform::{Os, Platform};
use crate::tool::Tool;

verus! {

/// Why an archive could not be turned into an install.
#[derive(Debug, Clone, Copy, PartialEq, Eq, Structural)]
pub enum ExtractError {
    /// The archive's name ends in no known format.
    UnknownFormat,
    /// The archive could not be read.
    Malformed,
    /// The archive holds no top-level directory.
    NoTopLevelDirectory,
}

/// The container format named by an archive extension.
pub open spec fn spec_format(ext: Seq<char>) -> Option<FileType> {
    if ext == "zip"@ {
        Some(FileType::Zip)
    } else if ext == "tar.gz"@ || ext == "tgz"@ {
        Some(FileType::TarGz)
    } else if ext == "tar.xz"@ {
        Some(FileType::TarXz)
    } else {
        None
    }
}

/// The format of an archive by its extension; installers cannot be unpacked.
pub fn archive_format(ext: &str) -> (r: Result<FileType, ExtractError>)
    ensures
        r matches Ok(f) ==> spec_format(ext@) == Some(f),
        r matches Err(e) ==> spec_format(ext@) is None && e == ExtractError::UnknownFormat,
{
    if str_eq(ext, "zip") {
        Ok(FileType::Zip)
    } else if str_eq(ext, "tar.gz") || str_eq(ext, "tgz") {
        Ok(FileType::TarGz)
    } else if str_eq(ext, "tar.xz") {
        Ok(FileType::TarXz)
    } else {
        Err(ExtractError::UnknownFormat)
    }
}

/// One entry at the top of the staging directory.
#[derive(Debug, Clone, PartialEq, Eq)]
pub struct StagedEntry {
    pub name: String,
    pub is_dir: bool,
}

/// The first directory among the entries.
pub open spec fn first_dir(entries: Seq<StagedEntry>) -> Option<int> {
    if exists|i: int| 0 <= i < entries.len() && #[trigger] entries[i].is_dir {
        Some(choose|i: int| 0 <= i < entries.len() && #[trigger] entries[i].is_dir && forall|j: int| 0 <= j < i ==> !entries[j].is_dir)
    } else {
        None
    }
}

/// Picks the root of an unpacked archive: its single top-level directory,
/// or the first directory where there are several entries.
pub fn choose_root(entries: &Vec<StagedEntry>) -> (r: Result<usize, ExtractError>)
    ensures
        r matches Ok(i) ==> i < entries@.len() && first_dir(entries@) == Some(i as int),
        r matches Err(e) ==> e == ExtractError::NoTopLevelDirectory && first_dir(entries@) is None,
{
    let mut i: usize = 0;
    while i < entries.len()
        invariant
            i <= entries@.len(),
            forall|j: int| 0 <= j < i ==> !entries@[j].is_dir,
        decreases entries@.len() - i,
    {
        if entries[i].is_dir {
            proof {
                let w = choose|k: int| 0 <= k < entries@.len() && #[trigger] entries@[k].is_dir && forall|j: int| 0 <= j < k ==> !entries@[j].is_dir;
                assert(0 <= i < entries@.len() && entries@[i as int].is_dir && forall|j: int| 0 <= j < i ==> !entries@[j].is_dir);
                if w < i {
                    assert(!entries@[w].is_dir);
                } else if w > i {
                    assert(!entries@[i as int].is_dir);
                }
            }
            return Ok(i);
        }
        i = i + 1;
    }
    Err(ExtractError::NoTopLevelDirectory)
}

/// Moving the entry at `from` to `to`, replacing whatever is there.
#[derive(Debug, Clone, PartialEq, Eq)]
pub struct Move {
    pub from: String,
    pub to: String,
}

/// Where a staged path lands once the move `from -> to` is carried out:
/// the path itself, or a path inside it, follows the move.
pub open spec fn relocate(from: Seq<char>, to: Seq<char>, p: Seq<char>) -> Seq<char> {
    if p == from {
        to
    } else if from.len() < p.len() && p.subrange(0, from.len() + 1 as int) == from + seq!['/'] {
        to + p.subrange(from.len() as int, p.len() as int)
    } else {
        p
    }
}

/// The moves that promote each child of the root directory `root` into
/// `dest`, in order.
pub open spec fn spec_promotion(root: Seq<char>, dest: Seq<char>, children: Seq<Seq<char>>) -> Seq<(Seq<char>, Seq<char>)> {
    children.map_values(|c: Seq<char>| (join(root, c), join(dest, c)))
}

pub open spec fn moves_view(v: Seq<Move>) -> Seq<(Seq<char>, Seq<char>)> {
    v.map_values(|m: Move| (m.from@, m.to@))
}

/// The moves that promote the root's children, named in `children`, from
/// `root` into `dest`.
pub fn promotion_moves(root: &str, dest: &str, children: &Vec<String>) -> (r: Vec<Move>)
    ensures
        moves_view(r@) == spec_promotion(root@, dest@, children@.map_values(|c: String| c@)),
{
    let mut r: Vec<Move> = Vec::new();
    let mut i: usize = 0;
    while i < children.len()
        invariant
            i <= children@.len(),
            moves_view(r@) == spec_promotion(root@, dest@, children@.subrange(0, i as int).map_values(|c: String| c@)),
        decreases children@.len() - i,
    {
        let c = &children[i];
        let m = Move { from: join_path(root, c.as_str()), to: join_path(dest, c.as_str()) };
        let ghost before = r@;
        r.push(m);
        assert(children@.subrange(0, i + 1) =~= children@.subrange(0, i as int).push(children@[i as int]));
        assert(moves_view(r@) =~= moves_view(before).push((join(root@, c@), join(dest@, c@))));
        assert(moves_view(r@) =~= spec_promotion(root@, dest@, children@.subrange(0, i + 1).map_values(|c: String| c@)));
        i = i + 1;
    }
    assert(children@.subrange(0, children@.len() as int) =~= children@);
    r
}

/// Flattening: when the only top-level entry of an unpacked archive is the
/// directory `x`, it is the root; the path `x/<child>/<rest>` is published
/// as `<dest>/<child>/<rest>`; the moves create exactly one entry of `dest`
/// per child of `x`, and none named `x` unless a child is.
pub proof fn lemma_flattening(
    staging: Seq<char>,
    x: StagedEntry,
    dest: Seq<char>,
    children: Seq<Seq<char>>,
    i: int,
    rest: Seq<char>,
)
    requires
        x.is_dir,
        0 <= i < children.len(),
    ensures
        first_dir(seq![x]) == Some(0int),
        relocate(
            spec_promotion(join(staging, x.name@), dest, children)[i].0,
            spec_promotion(join(staging, x.name@), dest, children)[i].1,
            join(join(join(staging, x.name@), children[i]), rest),
        ) == join(join(dest, children[i]), rest),
        (forall|j: int| 0 <= j < children.len() ==> children[j] != x.name@)
            ==> forall|j: int| 0 <= j < children.len()
            ==> #[trigger] spec_promotion(join(staging, x.name@), dest, children)[j].1 != join(dest, x.name@),
{
    assert forall|j: int| 0 <= j < children.len() && children[j] != x.name@ implies
        #[trigger] spec_promotion(join(staging, x.name@), dest, children)[j].1 != join(dest, x.name@) by {
        let a = join(dest, children[j]);
        let b = join(dest, x.name@);
        if a == b {
            assert(a.subrange(dest.len() + 1 as int, a.len() as int) =~= children[j]);
            assert(b.subrange(dest.len() + 1 as int, b.len() as int) =~= x.name@);
        }
    }
    let s = seq![x];
    assert(s[0].is_dir);
    let from = join(join(staging, x.name@), children[i]);
    let to = join(dest, children[i]);
    let p = join(from, rest);
    assert(p.subrange(0, from.len() + 1 as int) =~= from + seq!['/']);
    assert(p != from);
    assert(to + p.subrange(from.len() as int, p.len() as int) =~= join(to, rest));
}

/// Archives without a top-level directory: the Windows builds of Python
/// and Redis. Every top-level entry of such an archive is promoted.
pub open spec fn spec_flat_archive(t: Tool, p: Platform) -> bool {
    p.os == Os::Windows && (t == Tool::Python || t == Tool::Redis)
}

/// Whether the archive of `t` for `p` is promoted entry by entry rather
/// than from a root directory.
pub fn flat_archive(t: Tool, p: &Platform) -> (r: bool)
    ensures
        r == spec_flat_archive(t, *p),
{
    p.is_windows() && (t == Tool::Python || t == Tool::Redis)
}

/// Files made executable after unpacking, relative to the install.
pub open spec fn spec_executables(t: Tool) -> Seq<Seq<char>> {
    match t {
        Tool::Node => seq!["bin/node"@, "bin/npm"@, "bin/npx"@],
        Tool::Java => seq!["bin/java"@],
        Tool::Python => seq!["bin/python3"@],
        Tool::MySql | Tool::MariaDb => seq!["bin/mysqld"@, "bin/mysql"@, "bin/mysqladmin"@, "bin/mysqldump"@, "bin/mysqlcheck"@],
        Tool::Redis => seq![],
    }
}

/// Mode given to the known executables, since archives do not reliably
/// keep permission bits.
pub const EXECUTABLE_MODE: u32 = 0o755;

/// The files of an install of `t` that must be made executable.
pub fn executables(t: Tool) -> (r: Vec<&'static str>)
    ensures
        r@.map_values(|s: &'static str| s@) == spec_executables(t),
{
    let r: Vec<&'static str> = match t {
        Tool::Node => vec!["bin/node", "bin/npm", "bin/npx"],
        Tool::Java => vec!["bin/java"],
        Tool::Python => vec!["bin/python3"],
        Tool::MySql | Tool::MariaDb => vec!["bin/mysqld", "bin/mysql", "bin/mysqladmin", "bin/mysqldump", "bin/mysqlcheck"],
        Tool::Redis => Vec::new(),
    };
    assert(r@.map_values(|s: &'static str| s@) =~= spec_executables(t));
    r
}

} // verus!
