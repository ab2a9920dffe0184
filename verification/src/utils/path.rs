//! A character-level model of the paths that detection inspects.
//!
//! Paths are `/`-separated strings.  The filesystem itself enters the library
//! as a [`FsSnapshot`]: the set of paths that exist, gathered by the embedding
//! code before detection runs.  Everything detection asks of the platform
//! path routines — file stem, parent directory, joining — is done here on
//! plain strings and verified against `Seq<char>` specs.

use vstd::prelude::*;
use vstd::string::*;

use crate::utils::strings::{find_last, rfind_char, str_eq};

verus! {

/// The file-name component: everything after the last `/`.
pub open spec fn spec_file_name(p: Seq<char>) -> Seq<char> {
    match find_last(p, '/') {
        Some(i) => p.subrange(i + 1, p.len() as int),
        None => p,
    }
}

/// The file stem: the file name with its extension (the part after the last
/// `.`, when that dot is not the first character) removed.  `None` when the
/// path has no file-name component at all.
pub open spec fn spec_file_stem(p: Seq<char>) -> Option<Seq<char>> {
    let n = spec_file_name(p);
    if n.len() == 0 {
        None
    } else {
        match find_last(n, '.') {
            Some(i) => if i > 0 {
                Some(n.take(i))
            } else {
                Some(n)
            },
            None => Some(n),
        }
    }
}

/// The parent directory: everything before the last `/`, empty when the path
/// has no separator.
pub open spec fn spec_parent(p: Seq<char>) -> Seq<char> {
    match find_last(p, '/') {
        Some(i) => p.take(i),
        None => Seq::empty(),
    }
}

/// Joining a directory and a name with `/`; an empty directory contributes
/// no separator.
pub open spec fn spec_join(d: Seq<char>, n: Seq<char>) -> Seq<char> {
    if d.len() == 0 {
        n
    } else {
        d + "/"@ + n
    }
}

/// The sibling data directory of an executable: `<parent>/<stem>_Data`.
pub open spec fn spec_data_dir(exe: Seq<char>) -> Option<Seq<char>> {
    match spec_file_stem(exe) {
        Some(stem) => Some(spec_join(spec_parent(exe), stem + "_Data"@)),
        None => None,
    }
}

/// The file-name component of `p`.
pub fn file_name_part<'a>(p: &'a str) -> (r: &'a str)
    ensures
        r@ == spec_file_name(p@),
{
    let n: usize = p.unicode_len();
    match rfind_char(p, '/') {
        Some(i) => p.substring_char(i + 1, n),
        None => p,
    }
}

/// The file stem of `p`, or `None` when `p` has no file-name component.
pub fn file_stem_part<'a>(p: &'a str) -> (r: Option<&'a str>)
    ensures
        match r {
            Some(s) => spec_file_stem(p@) == Some(s@),
            None => spec_file_stem(p@) is None,
        },
{
    let name = file_name_part(p);
    let n: usize = name.unicode_len();
    if n == 0 {
        return None;
    }
    match rfind_char(name, '.') {
        Some(i) => if i > 0 {
            Some(name.substring_char(0, i))
        } else {
            Some(name)
        },
        None => Some(name),
    }
}

/// The parent directory of `p`.
pub fn parent_part<'a>(p: &'a str) -> (r: &'a str)
    ensures
        r@ == spec_parent(p@),
{
    match rfind_char(p, '/') {
        Some(i) => p.substring_char(0, i),
        None => {
            let empty = "";
            proof {
                reveal_strlit("");
                assert(empty@ =~= Seq::<char>::empty());
            }
            empty
        },
    }
}

/// Joins a directory and a name.
pub fn join_path(d: &str, n: &str) -> (r: String)
    ensures
        r@ == spec_join(d@, n@),
{
    if d.unicode_len() == 0 {
        String::from_str(n)
    } else {
        let mut s = String::from_str(d);
        s.append("/");
        s.append(n);
        s
    }
}

/// The sibling data directory of the executable at `exe`.
pub fn get_data_path(exe: &str) -> (r: Option<String>)
    ensures
        match r {
            Some(s) => spec_data_dir(exe@) == Some(s@),
            None => spec_data_dir(exe@) is None,
        },
{
    match file_stem_part(exe) {
        Some(stem) => {
            let parent = parent_part(exe);
            let mut dir_name = String::from_str(stem);
            dir_name.append("_Data");
            Some(join_path(parent, dir_name.as_str()))
        },
        None => None,
    }
}

/// The paths that exist on disk, as the embedding code found them.
///
/// Detection never touches the filesystem itself; it consults this snapshot.
/// A path (file or directory) exists exactly when it occurs in `present`.
#[derive(Debug, Clone)]
pub struct FsSnapshot {
    pub present: Vec<String>,
}

impl FsSnapshot {
    /// Whether the path `p` exists in this snapshot.
    pub open spec fn spec_has(self, p: Seq<char>) -> bool {
        exists|i: int| 0 <= i < self.present@.len() && self.present@[i]@ == p
    }

    /// Whether the path `p` exists in this snapshot.
    pub fn has(&self, p: &str) -> (r: bool)
        ensures
            r == self.spec_has(p@),
    {
        let n: usize = self.present.len();
        let mut i: usize = 0;
        while i < n
            invariant
                i <= n,
                n == self.present@.len(),
                forall|j: int| 0 <= j < i ==> self.present@[j]@ != p@,
            decreases n - i,
        {
            if str_eq(self.present[i].as_str(), p) {
                return true;
            }
            i = i + 1;
        }
        false
    }
}

/// First of `<dir>/<n1>`, `<dir>/<n2>` that exists.
pub open spec fn spec_probe2(
    fs: FsSnapshot,
    dir: Seq<char>,
    n1: Seq<char>,
    n2: Seq<char>,
) -> Option<Seq<char>> {
    if fs.spec_has(spec_join(dir, n1)) {
        Some(spec_join(dir, n1))
    } else if fs.spec_has(spec_join(dir, n2)) {
        Some(spec_join(dir, n2))
    } else {
        None
    }
}

/// First of `<dir>/<n1>`, `<dir>/<n2>` that exists.
pub fn probe2(fs: &FsSnapshot, dir: &str, n1: &str, n2: &str) -> (r: Option<String>)
    ensures
        ({
            let s = spec_probe2(*fs, dir@, n1@, n2@);
            match r {
                Some(p) => s == Some(p@),
                None => s is None,
            }
        }),
{
    let c1 = join_path(dir, n1);
    if fs.has(c1.as_str()) {
        return Some(c1);
    }
    let c2 = join_path(dir, n2);
    if fs.has(c2.as_str()) {
        return Some(c2);
    }
    None
}

/// Where the tracing-JIT library may stand, in precedence order (first match
/// wins): the current file names in the base directory, the data directory,
/// and the `MonoBleedingEdge` directory under each; then the two legacy file
/// names in the base and data directories.
pub open spec fn spec_find_mono(
    base: Seq<char>,
    data: Seq<char>,
    fs: FsSnapshot,
) -> Option<Seq<char>> {
    let modern1 = "mono-2.0-bdwgc.dll"@;
    let modern2 = "libmonobdwgc-2.0.so"@;
    let legacy1 = "mono.dll"@;
    let legacy2 = "libmono.so"@;
    let bbe = spec_join(base, "MonoBleedingEdge"@);
    let dbe = spec_join(data, "MonoBleedingEdge"@);
    match spec_probe2(fs, base, modern1, modern2) {
        Some(p) => Some(p),
        None => match spec_probe2(fs, data, modern1, modern2) {
            Some(p) => Some(p),
            None => match spec_probe2(fs, bbe, modern1, modern2) {
                Some(p) => Some(p),
                None => match spec_probe2(fs, dbe, modern1, modern2) {
                    Some(p) => Some(p),
                    None => match spec_probe2(fs, base, legacy1, legacy2) {
                        Some(p) => Some(p),
                        None => spec_probe2(fs, data, legacy1, legacy2),
                    },
                },
            },
        },
    }
}

/// Looks for the tracing-JIT native library near the executable, trying the
/// fixed candidate list of [`spec_find_mono`] in order.
pub fn find_mono(base_path: &str, data_path: &str, fs: &FsSnapshot) -> (r: Option<String>)
    ensures
        ({
            let s = spec_find_mono(base_path@, data_path@, *fs);
            match r {
                Some(p) => s == Some(p@),
                None => s is None,
            }
        }),
{
    if let Some(p) = probe2(fs, base_path, "mono-2.0-bdwgc.dll", "libmonobdwgc-2.0.so") {
        return Some(p);
    }
    if let Some(p) = probe2(fs, data_path, "mono-2.0-bdwgc.dll", "libmonobdwgc-2.0.so") {
        return Some(p);
    }
    let bbe = join_path(base_path, "MonoBleedingEdge");
    if let Some(p) = probe2(fs, bbe.as_str(), "mono-2.0-bdwgc.dll", "libmonobdwgc-2.0.so") {
        return Some(p);
    }
    let dbe = join_path(data_path, "MonoBleedingEdge");
    if let Some(p) = probe2(fs, dbe.as_str(), "mono-2.0-bdwgc.dll", "libmonobdwgc-2.0.so") {
        return Some(p);
    }
    if let Some(p) = probe2(fs, base_path, "mono.dll", "libmono.so") {
        return Some(p);
    }
    if let Some(p) = probe2(fs, data_path, "mono.dll", "libmono.so") {
        return Some(p);
    }
    None
}

/// Where the native-AOT library may stand: `GameAssembly`, with either
/// platform extension, in the base directory only.
pub open spec fn spec_find_game_assembly(base: Seq<char>, fs: FsSnapshot) -> Option<Seq<char>> {
    spec_probe2(fs, base, "GameAssembly.dll"@, "GameAssembly.so"@)
}

/// Looks for the native-AOT library in the base directory.
pub fn find_game_assembly(base_path: &str, fs: &FsSnapshot) -> (r: Option<String>)
    ensures
        ({
            let s = spec_find_game_assembly(base_path@, *fs);
            match r {
                Some(p) => s == Some(p@),
                None => s is None,
            }
        }),
{
    probe2(fs, base_path, "GameAssembly.dll", "GameAssembly.so")
}

} // verus!
