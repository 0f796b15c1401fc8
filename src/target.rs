use vstd::prelude::*;

verus! {

/// How a vendored source archive is compressed.
#[derive(Clone, Copy, Debug, PartialEq, Eq, Structural)]
pub enum Compression {
    Gzip,
    Bzip2,
}

/// How a target is configured and installed.
#[derive(Clone, Copy, Debug, PartialEq, Eq, Structural)]
pub enum Recipe {
    /// `configure --prefix <p> --disable-nls`, then `make install`.
    NoLocale,
    /// As `NoLocale`, with `--disable-rpath` as well.
    NoLocaleNoRpath,
    /// `configure --prefix <p>`, then `make CFLAGS=-g -O2 -fPIC install-static`.
    StaticInstall,
}

/// One native library that can be built from a vendored archive.
pub struct BuildTarget {
    /// Name of the library; also the stem of its archive and directories.
    pub name: String,
    /// Vendored version, which is also the minimum accepted by a probe.
    pub version: String,
    /// Name under which pkg-config knows the library.
    pub package: String,
    pub compression: Compression,
    pub recipe: Recipe,
    /// The probe also asks for compiler flags.
    pub want_cflags: bool,
    /// Flags of the targets built before it are handed to its build.
    pub depends_on_prior: bool,
}

/// Number of targets in the bootstrap chain.
pub const TARGET_COUNT: usize = 3;

pub open spec fn declared_name(i: int) -> Seq<char> {
    if i == 0 {
        "popt"@
    } else if i == 1 {
        "slang"@
    } else {
        "newt"@
    }
}

pub open spec fn declared_version(i: int) -> Seq<char> {
    if i == 0 {
        "1.16"@
    } else if i == 1 {
        "2.3.2"@
    } else {
        "0.52.20"@
    }
}

pub open spec fn declared_package(i: int) -> Seq<char> {
    if i == 0 {
        "popt"@
    } else if i == 1 {
        "slang"@
    } else {
        "libnewt"@
    }
}

pub open spec fn declared_compression(i: int) -> Compression {
    if i == 1 {
        Compression::Bzip2
    } else {
        Compression::Gzip
    }
}

pub open spec fn declared_recipe(i: int) -> Recipe {
    if i == 0 {
        Recipe::NoLocaleNoRpath
    } else if i == 1 {
        Recipe::StaticInstall
    } else {
        Recipe::NoLocale
    }
}

impl BuildTarget {
    /// This is target `i` of the chain, in build order.
    pub open spec fn is_declared(&self, i: int) -> bool {
        &&& 0 <= i < TARGET_COUNT
        &&& self.name@ == declared_name(i)
        &&& self.version@ == declared_version(i)
        &&& self.package@ == declared_package(i)
        &&& self.compression == declared_compression(i)
        &&& self.recipe == declared_recipe(i)
        &&& self.want_cflags == (i != 2)
        &&& self.depends_on_prior == (i == 2)
    }

    /// Target `i` of the chain: popt, slang, then newt, which depends on both.
    pub fn declared(i: usize) -> (r: BuildTarget)
        requires
            i < TARGET_COUNT,
        ensures
            r.is_declared(i as int),
    {
        if i == 0 {
            BuildTarget {
                name: String::from_str("popt"),
                version: String::from_str("1.16"),
                package: String::from_str("popt"),
                compression: Compression::Gzip,
                recipe: Recipe::NoLocaleNoRpath,
                want_cflags: true,
                depends_on_prior: false,
            }
        } else if i == 1 {
            BuildTarget {
                name: String::from_str("slang"),
                version: String::from_str("2.3.2"),
                package: String::from_str("slang"),
                compression: Compression::Bzip2,
                recipe: Recipe::StaticInstall,
                want_cflags: true,
                depends_on_prior: false,
            }
        } else {
            BuildTarget {
                name: String::from_str("newt"),
                version: String::from_str("0.52.20"),
                package: String::from_str("libnewt"),
                compression: Compression::Gzip,
                recipe: Recipe::NoLocale,
                want_cflags: false,
                depends_on_prior: true,
            }
        }
    }
}

} // verus!
