use vstd::prelude::*;

verus! {

/// What a probe learned of an installed library.
pub struct ProbedLibrary {
    pub version: String,
    /// Include-path directories, in order.
    pub include_paths: Vec<String>,
    /// Link-path directories, in order.
    pub link_paths: Vec<String>,
    /// Further linker arguments, passed on untouched.
    pub link_args: Vec<String>,
}

/// `{marker}{dir} ` for each directory of `dirs`, in order.
pub open spec fn marked(dirs: Seq<String>, marker: Seq<char>) -> Seq<char>
    decreases dirs.len(),
{
    if dirs.len() == 0 {
        Seq::empty()
    } else {
        marked(dirs.drop_last(), marker) + marker + dirs.last()@ + " "@
    }
}

/// The compiler flags that name every header directory of `libs`, in order.
pub open spec fn include_flags(libs: Seq<ProbedLibrary>) -> Seq<char>
    decreases libs.len(),
{
    if libs.len() == 0 {
        Seq::empty()
    } else {
        include_flags(libs.drop_last()) + marked(libs.last().include_paths@, "-I"@)
    }
}

/// The linker flags that name every link directory of `libs`, in order.
pub open spec fn link_flags(libs: Seq<ProbedLibrary>) -> Seq<char>
    decreases libs.len(),
{
    if libs.len() == 0 {
        Seq::empty()
    } else {
        link_flags(libs.drop_last()) + marked(libs.last().link_paths@, "-L"@)
    }
}

/// A variable holding `text`, or absent where `text` is empty.
pub open spec fn set_if_nonempty(text: Seq<char>) -> Option<Seq<char>> {
    if text.len() == 0 {
        None
    } else {
        Some(text)
    }
}

pub open spec fn opt_view(o: Option<String>) -> Option<Seq<char>> {
    match o {
        Some(s) => Some(s@),
        None => None,
    }
}

/// The compiler-flags (`CPPFLAGS`) and linker-flags (`LDFLAGS`) variables that
/// a build step sees; `None` is an absent variable.
pub struct FlagEnv {
    pub cppflags: Option<String>,
    pub ldflags: Option<String>,
}

impl View for FlagEnv {
    type V = (Option<Seq<char>>, Option<Seq<char>>);

    open spec fn view(&self) -> Self::V {
        (opt_view(self.cppflags), opt_view(self.ldflags))
    }
}

pub type EnvView = (Option<Seq<char>>, Option<Seq<char>>);

/// Both variables after exporting the flags of `libs` over `_before`.
pub open spec fn after_export(_before: EnvView, libs: Seq<ProbedLibrary>) -> EnvView {
    (set_if_nonempty(include_flags(libs)), set_if_nonempty(link_flags(libs)))
}

/// Both variables after clearing them.
pub open spec fn after_clear(_before: EnvView) -> EnvView {
    (None, None)
}

fn append_marked(acc: &mut String, dirs: &Vec<String>, marker: &str)
    ensures
        final(acc)@ == old(acc)@ + marked(dirs@, marker@),
{
    let mut k: usize = 0;
    let ghost start = acc@;
    proof {
        assert(dirs@.take(0) =~= Seq::<String>::empty());
        assert(start + marked(dirs@.take(0), marker@) =~= start);
    }
    while k < dirs.len()
        invariant
            k <= dirs@.len(),
            acc@ == start + marked(dirs@.take(k as int), marker@),
        decreases dirs@.len() - k,
    {
        acc.append(marker);
        acc.append(dirs[k].as_str());
        acc.append(" ");
        proof {
            assert(dirs@.take(k as int + 1).drop_last() =~= dirs@.take(k as int));
            assert(acc@ =~= start + marked(dirs@.take(k as int + 1), marker@));
        }
        k = k + 1;
    }
    proof {
        assert(dirs@.take(k as int) =~= dirs@);
    }
}

impl FlagEnv {
    /// Neither variable set.
    pub fn new() -> (r: FlagEnv)
        ensures
            r@ == (None::<Seq<char>>, None::<Seq<char>>),
    {
        FlagEnv { cppflags: None, ldflags: None }
    }

    /// Sets the compiler flags to `-I{dir} ` for every header directory of
    /// `libs` and the linker flags to `-L{dir} ` for every link directory, in
    /// order; a variable with nothing to hold is left absent, whatever it
    /// held before.
    pub fn export(&mut self, libs: &Vec<ProbedLibrary>)
        ensures
            final(self)@ == after_export(old(self)@, libs@),
    {
        let mut header_flags = String::new();
        let mut link = String::new();
        let mut i: usize = 0;
        proof {
            assert(libs@.take(0) =~= Seq::<ProbedLibrary>::empty());
        }
        while i < libs.len()
            invariant
                i <= libs@.len(),
                header_flags@ == include_flags(libs@.take(i as int)),
                link@ == link_flags(libs@.take(i as int)),
            decreases libs@.len() - i,
        {
            append_marked(&mut header_flags, &libs[i].include_paths, "-I");
            append_marked(&mut link, &libs[i].link_paths, "-L");
            proof {
                assert(libs@.take(i as int + 1).drop_last() =~= libs@.take(i as int));
            }
            i = i + 1;
        }
        proof {
            assert(libs@.take(i as int) =~= libs@);
        }
        self.cppflags = if header_flags.unicode_len() > 0 { Some(header_flags) } else { None };
        self.ldflags = if link.unicode_len() > 0 { Some(link) } else { None };
    }

    /// Removes both variables, whether or not they were set.
    pub fn clear(&mut self)
        ensures
            final(self)@ == after_clear(old(self)@),
    {
        self.cppflags = None;
        self.ldflags = None;
    }
}

/// Exporting and then clearing leaves both variables absent, whatever they
/// held before the export: clearing removes them and never restores an
/// earlier value, even one the caller had set.
pub proof fn lemma_export_then_clear(before: EnvView, libs: Seq<ProbedLibrary>)
    ensures
        after_clear(after_export(before, libs)) == (None::<Seq<char>>, None::<Seq<char>>),
{
}

/// Exporting no libraries sets neither variable.
pub proof fn lemma_export_nothing(before: EnvView)
    ensures
        after_export(before, Seq::empty()) == (None::<Seq<char>>, None::<Seq<char>>),
{
    assert(include_flags(Seq::empty()).len() == 0);
    assert(link_flags(Seq::empty()).len() == 0);
}

} // verus!
