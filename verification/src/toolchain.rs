//! Uninstalling the toolchain and cleaning up installed scripts: which files
//! go. Listing directories, reading and removing files is left to the caller.

use vstd::prelude::*;
use vstd::string::StringExecFns;

use crate::home::alias_script_text;
use crate::text::{
    contains_text, ends_with, has_infix, has_prefix, has_suffix, starts_with, str_equal, texts,
};

verus! {

/// The directory under the user's home that holds the toolchain's executables
/// and installed scripts.
pub const XDG_BIN_DIR: &'static str = ".local/bin";

/// The directory under the user's home that holds the toolchain's libraries.
pub const XDG_LIB_DIR: &'static str = ".local/lib";

/// The text that marks a script as the alias of an installed sandbox.
pub const ALIAS_MARKER: &'static str = "# MSB-ALIAS:";

/// The executables of the toolchain.
pub open spec fn toolchain_executables() -> Seq<Seq<char>> {
    seq!["msb"@, "msbrun"@, "msr"@, "msx"@, "msi"@, "msbserver"@]
}

fn strings(names: &[&str]) -> (r: Vec<String>)
    ensures
        r@.len() == names@.len(),
        forall|i: int| 0 <= i < names@.len() ==> (#[trigger] r@[i])@ == names@[i]@,
{
    let mut r: Vec<String> = Vec::new();
    let mut i: usize = 0;
    while i < names.len()
        invariant
            i <= names@.len(),
            r@.len() == i,
            forall|j: int| 0 <= j < i ==> (#[trigger] r@[j])@ == names@[j]@,
        decreases names@.len() - i,
    {
        r.push(String::from_str(names[i]));
        i = i + 1;
    }
    r
}

/// The executables that uninstalling removes from the bin directory, where they
/// exist.
pub fn uninstalled_executables() -> (r: Vec<String>)
    ensures
        texts(r@) == toolchain_executables(),
{
    let r = strings(&["msb", "msbrun", "msr", "msx", "msi", "msbserver"]);
    assert(texts(r@) =~= toolchain_executables());
    r
}

/// The unversioned library files of the toolchain.
pub open spec fn base_libraries() -> Seq<Seq<char>> {
    seq!["libkrun.dylib"@, "libkrunfw.dylib"@, "libkrun.so"@, "libkrunfw.so"@]
}

/// The unversioned library files that uninstalling removes from the library
/// directory, where they exist, before the versioned ones.
pub fn uninstalled_base_libraries() -> (r: Vec<String>)
    ensures
        texts(r@) == base_libraries(),
{
    let r = strings(&["libkrun.dylib", "libkrunfw.dylib", "libkrun.so", "libkrunfw.so"]);
    assert(texts(r@) =~= base_libraries());
    r
}

/// The library names whose versioned files are removed.
pub open spec fn library_prefixes() -> Seq<Seq<char>> {
    seq!["libkrun"@, "libkrunfw"@]
}

/// The library names whose versioned files uninstalling removes, in order.
pub fn versioned_library_prefixes() -> (r: Vec<String>)
    ensures
        texts(r@) == library_prefixes(),
{
    let r = strings(&["libkrun", "libkrunfw"]);
    assert(texts(r@) =~= library_prefixes());
    r
}

/// A file name is a versioned file of the library `lib_prefix`: a macOS
/// library `<prefix>.<...>.dylib`, or a Linux one, `<prefix>.<...>` or
/// `<prefix>.so.<...>`.
pub open spec fn versioned_library(file_name: Seq<char>, lib_prefix: Seq<char>) -> bool {
    let is_dylib = has_prefix(file_name, lib_prefix + "."@) && has_suffix(file_name, ".dylib"@);
    let is_so = has_prefix(file_name, lib_prefix + "."@) || has_prefix(
        file_name,
        lib_prefix + ".so."@,
    );
    is_dylib || is_so
}

/// Whether a file in the library directory is a versioned file of the library
/// `lib_prefix`, which uninstalling removes. Every such name starts with the
/// prefix and a dot.
pub fn is_versioned_library(file_name: &str, lib_prefix: &str) -> (r: bool)
    ensures
        r == versioned_library(file_name@, lib_prefix@),
        r == has_prefix(file_name@, lib_prefix@ + "."@),
{
    let dotted = String::from_str(lib_prefix).concat(".");
    let so = String::from_str(lib_prefix).concat(".so.");
    let starts_dotted = starts_with(file_name, dotted.as_str());
    let is_dylib = starts_dotted && ends_with(file_name, ".dylib");
    let is_so = starts_dotted || starts_with(file_name, so.as_str());
    proof {
        let p = lib_prefix@;
        let f = file_name@;
        if has_prefix(f, p + ".so."@) {
            reveal_strlit(".so.");
            reveal_strlit(".");
            assert(f.subrange(0, (p + "."@).len() as int) =~= f.subrange(0, (p + ".so."@).len() as int).subrange(
                0,
                (p + "."@).len() as int,
            ));
            assert((p + ".so."@).subrange(0, (p + "."@).len() as int) =~= p + "."@);
        }
    }
    is_dylib || is_so
}

/// The core executables that cleaning leaves in place.
pub open spec fn protected_executable(name: Seq<char>) -> bool {
    name == "msi"@ || name == "msx"@ || name == "msr"@
}

/// Cleaning removes a file of the bin directory: one whose name is not a
/// protected executable and whose text (where it reads as text) carries the
/// alias marker.
pub open spec fn cleans_file(file_name: Option<Seq<char>>, content: Option<Seq<char>>) -> bool {
    &&& !(file_name matches Some(n) && protected_executable(n))
    &&& content matches Some(c) && has_infix(c, ALIAS_MARKER@)
}

/// Whether cleaning removes a file of the bin directory, given its name (where
/// it reads as text) and its content (where it reads as text). Directories
/// and other entries that are not files are left alone by the caller.
pub fn cleans_user_script(file_name: Option<&str>, content: Option<&str>) -> (r: bool)
    ensures
        r == cleans_file(
            match file_name {
                Some(n) => Some(n@),
                None => None,
            },
            match content {
                Some(c) => Some(c@),
                None => None,
            },
        ),
{
    let protected = match file_name {
        Some(n) => str_equal(n, "msi") || str_equal(n, "msx") || str_equal(n, "msr"),
        None => false,
    };
    if protected {
        return false;
    }
    match content {
        Some(c) => contains_text(c, ALIAS_MARKER),
        None => false,
    }
}

/// Cleaning removes the alias script of every installed sandbox whose alias is
/// not a protected executable.
pub proof fn lemma_installed_alias_is_cleaned(alias: Seq<char>, script: Option<Seq<char>>)
    requires
        !protected_executable(alias),
    ensures
        cleans_file(Some(alias), Some(alias_script_text(alias, script))),
{
    crate::home::lemma_alias_script_marked(alias, script);
}

} // verus!
