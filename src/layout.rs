use vstd::prelude::*;
use crate::target::{declared_name, declared_version, BuildTarget, Compression, TARGET_COUNT};

verus! {

/// `{name}-{version}`: the stem of a target's archive and directories.
pub open spec fn stem(name: Seq<char>, version: Seq<char>) -> Seq<char> {
    name + "-"@ + version
}

pub open spec fn archive_suffix(c: Compression) -> Seq<char> {
    match c {
        Compression::Gzip => ".tar.gz"@,
        Compression::Bzip2 => ".tar.bz2"@,
    }
}

/// `{output_root}/build`: the scratch root shared by all targets.
pub open spec fn build_root_of(out: Seq<char>) -> Seq<char> {
    out + "/build"@
}

/// `{output_root}/build/{name}-{version}`.
pub open spec fn source_dir_of(out: Seq<char>, name: Seq<char>, version: Seq<char>) -> Seq<char> {
    out + "/build/"@ + stem(name, version)
}

/// `{output_root}/install/{name}-{version}`.
pub open spec fn install_root_of(out: Seq<char>, name: Seq<char>, version: Seq<char>) -> Seq<char> {
    out + "/install/"@ + stem(name, version)
}

/// `{install_root}/lib/pkgconfig`.
pub open spec fn metadata_path_of(out: Seq<char>, name: Seq<char>, version: Seq<char>) -> Seq<char> {
    install_root_of(out, name, version) + "/lib/pkgconfig"@
}

/// `{project_root}/vendor/{name}-{version}.tar.gz` (or `.tar.bz2`).
pub open spec fn archive_of(
    project: Seq<char>,
    name: Seq<char>,
    version: Seq<char>,
    c: Compression,
) -> Seq<char> {
    project + "/vendor/"@ + stem(name, version) + archive_suffix(c)
}

/// The paths used while bootstrapping one target.
pub struct BuildEnvironment {
    /// The vendored archive of the target.
    pub archive: String,
    /// Where archives are extracted; shared by all targets.
    pub build_root: String,
    /// The target's extracted source tree.
    pub source_dir: String,
    /// The target's install prefix.
    pub install_root: String,
    /// Where the target's installed pkg-config metadata lies.
    pub metadata_path: String,
}

impl BuildEnvironment {
    pub open spec fn derived(
        &self,
        out: Seq<char>,
        project: Seq<char>,
        name: Seq<char>,
        version: Seq<char>,
        c: Compression,
    ) -> bool {
        &&& self.archive@ == archive_of(project, name, version, c)
        &&& self.build_root@ == build_root_of(out)
        &&& self.source_dir@ == source_dir_of(out, name, version)
        &&& self.install_root@ == install_root_of(out, name, version)
        &&& self.metadata_path@ == metadata_path_of(out, name, version)
    }

    /// The paths of `target` under `output_root`, with vendored archives
    /// under `project_root`.
    pub fn new(output_root: &str, project_root: &str, target: &BuildTarget) -> (r: BuildEnvironment)
        ensures
            r.derived(
                output_root@,
                project_root@,
                target.name@,
                target.version@,
                target.compression,
            ),
    {
        let mut stem = target.name.clone();
        stem.append("-");
        stem.append(target.version.as_str());

        let mut archive = String::from_str(project_root);
        archive.append("/vendor/");
        archive.append(stem.as_str());
        match target.compression {
            Compression::Gzip => archive.append(".tar.gz"),
            Compression::Bzip2 => archive.append(".tar.bz2"),
        }

        let mut build_root = String::from_str(output_root);
        build_root.append("/build");

        let mut source_dir = String::from_str(output_root);
        source_dir.append("/build/");
        source_dir.append(stem.as_str());

        let mut install_root = String::from_str(output_root);
        install_root.append("/install/");
        install_root.append(stem.as_str());

        let mut metadata_path = install_root.clone();
        metadata_path.append("/lib/pkgconfig");

        proof {
            assert(archive@ =~= archive_of(project_root@, target.name@, target.version@, target.compression));
            assert(source_dir@ =~= source_dir_of(output_root@, target.name@, target.version@));
            assert(install_root@ =~= install_root_of(output_root@, target.name@, target.version@));
            assert(metadata_path@ =~= metadata_path_of(output_root@, target.name@, target.version@));
        }
        BuildEnvironment { archive, build_root, source_dir, install_root, metadata_path }
    }
}

proof fn lemma_differ_after_prefix(p: Seq<char>, a: Seq<char>, b: Seq<char>, q: Seq<char>, r: Seq<char>)
    requires
        a.len() > 0,
        b.len() > 0,
        a[0] != b[0],
    ensures
        p + a + q != p + b + r,
{
    assert((p + a + q)[p.len() as int] == a[0]);
    assert((p + b + r)[p.len() as int] == b[0]);
}

/// Any two distinct targets of the chain, laid out under the same output
/// root, get pairwise different source trees, install roots, metadata paths
/// and archives; and no target's source tree is another's install root.
pub proof fn lemma_declared_paths_disjoint(out: Seq<char>, project: Seq<char>, i: int, j: int)
    requires
        0 <= i < TARGET_COUNT,
        0 <= j < TARGET_COUNT,
        i != j,
    ensures
        source_dir_of(out, declared_name(i), declared_version(i))
            != source_dir_of(out, declared_name(j), declared_version(j)),
        install_root_of(out, declared_name(i), declared_version(i))
            != install_root_of(out, declared_name(j), declared_version(j)),
        metadata_path_of(out, declared_name(i), declared_version(i))
            != metadata_path_of(out, declared_name(j), declared_version(j)),
        source_dir_of(out, declared_name(i), declared_version(i))
            != install_root_of(out, declared_name(j), declared_version(j)),
        forall|ci: Compression, cj: Compression|
            #[trigger] archive_of(project, declared_name(i), declared_version(i), ci)
                != #[trigger] archive_of(project, declared_name(j), declared_version(j), cj),
{
    reveal_strlit("popt");
    reveal_strlit("slang");
    reveal_strlit("newt");
    reveal_strlit("-");
    reveal_strlit("/build/");
    reveal_strlit("/install/");
    let si = stem(declared_name(i), declared_version(i));
    let sj = stem(declared_name(j), declared_version(j));
    assert(si[0] == declared_name(i)[0]);
    assert(sj[0] == declared_name(j)[0]);
    lemma_differ_after_prefix(out + "/build/"@, si, sj, Seq::empty(), Seq::empty());
    assert(out + "/build/"@ + si + Seq::empty() =~= source_dir_of(out, declared_name(i), declared_version(i)));
    assert(out + "/build/"@ + sj + Seq::empty() =~= source_dir_of(out, declared_name(j), declared_version(j)));
    lemma_differ_after_prefix(out + "/install/"@, si, sj, Seq::empty(), "/lib/pkgconfig"@);
    lemma_differ_after_prefix(out + "/install/"@, si, sj, Seq::empty(), Seq::empty());
    lemma_differ_after_prefix(out + "/install/"@, si, sj, "/lib/pkgconfig"@, "/lib/pkgconfig"@);
    assert(out + "/install/"@ + si + Seq::empty() =~= install_root_of(out, declared_name(i), declared_version(i)));
    assert(out + "/install/"@ + sj + Seq::empty() =~= install_root_of(out, declared_name(j), declared_version(j)));
    assert(out + "/install/"@ + si + "/lib/pkgconfig"@ =~= metadata_path_of(out, declared_name(i), declared_version(i)));
    assert(out + "/install/"@ + sj + "/lib/pkgconfig"@ =~= metadata_path_of(out, declared_name(j), declared_version(j)));
    let k = out.len() as int + 1;
    assert(source_dir_of(out, declared_name(i), declared_version(i))[k] == 'b');
    assert(install_root_of(out, declared_name(j), declared_version(j))[k] == 'i');
    assert forall|ci: Compression, cj: Compression|
        #[trigger] archive_of(project, declared_name(i), declared_version(i), ci)
            != #[trigger] archive_of(project, declared_name(j), declared_version(j), cj) by {
        lemma_differ_after_prefix(project + "/vendor/"@, si, sj, archive_suffix(ci), archive_suffix(cj));
        assert(project + "/vendor/"@ + si + archive_suffix(ci) =~= archive_of(project, declared_name(i), declared_version(i), ci));
        assert(project + "/vendor/"@ + sj + archive_suffix(cj) =~= archive_of(project, declared_name(j), declared_version(j), cj));
    }
}

} // verus!
