use vstd::prelude::*;
use vstd::string::*;

use ceres_mpq::{Creator, FileOptions};

use crate::listing::views;
use crate::path::{has_parent_segment, host_path, host_sep, archive_sep, joined, normalized};

verus! {

#[verifier::external_type_specification]
#[verifier::external_body]
pub struct ExCreator(ceres_mpq::Creator);

#[verifier::external_type_specification]
pub struct ExFileOptions(ceres_mpq::FileOptions);

/// The files that an archive build holds, by stored name.
pub uninterp spec fn build_entries(c: Creator) -> Map<Seq<char>, Seq<u8>>;

/// A host-relative path with every host separator replaced by the archive
/// separator.
pub open spec fn archive_name(s: Seq<char>) -> Seq<char> {
    s.map_values(|c: char| if c == host_sep() { archive_sep() } else { c })
}

/// Relies on Creator::default: a build that holds no file.
#[verifier::external_body]
fn new_build() -> (r: Creator)
    ensures
        build_entries(r).dom().is_empty(),
{
    Creator::default()
}

/// Relies on Creator::add_file: it stores the contents under the name with
/// `/` turned into `\`, in place of any file whose name hashes to the same
/// key; nothing else changes.
#[verifier::external_body]
fn add_to_build(c: &mut Creator, name: &str, contents: Vec<u8>, options: FileOptions)
    ensures
        build_entries(*final(c)).contains_pair(archive_name(name@), contents@),
        forall|k: Seq<char>|
            #![trigger build_entries(*final(c)).contains_key(k)]
            build_entries(*final(c)).contains_key(k) && k != archive_name(name@) ==> build_entries(
                *old(c),
            ).contains_pair(k, build_entries(*final(c))[k]),
{
    c.add_file(name, contents, options)
}

/// The options the tool packs every file with: compressed, not encrypted,
/// key not adjusted.
pub fn default_options() -> (r: FileOptions)
    ensures
        !r.encrypt,
        r.compress,
        !r.adjust_key,
{
    FileOptions { encrypt: false, compress: true, adjust_key: false }
}

/// The path of `file` relative to directory `root`, when `file` lies
/// strictly below it; both are absolute host paths.
pub open spec fn relative_to(root: Seq<char>, file: Seq<char>) -> Option<Seq<char>> {
    let start = if root.len() > 0 && root.last() == host_sep() {
        root.len() as int
    } else {
        root.len() + 1int
    };
    if start < file.len() && file.subrange(0, root.len() as int) == root && (start == root.len()
        || file[root.len() as int] == host_sep()) {
        Some(file.subrange(start, file.len() as int))
    } else {
        None
    }
}

/// The archive name of a file found under `root`.
pub open spec fn entry_name(root: Seq<char>, file: Seq<char>) -> Option<Seq<char>> {
    match relative_to(root, file) {
        Some(rel) => Some(archive_name(rel)),
        None => None,
    }
}

/// Whether `s` begins with `prefix`.
fn starts_with(s: &str, prefix: &str) -> (r: bool)
    ensures
        r == (prefix@.len() <= s@.len() && s@.subrange(0, prefix@.len() as int) == prefix@),
{
    let n = prefix.unicode_len();
    let m = s.unicode_len();
    if n > m {
        return false;
    }
    let mut i: usize = 0;
    while i < n
        invariant
            n == prefix@.len(),
            m == s@.len(),
            n <= m,
            i <= n,
            forall|j: int| 0 <= j < i ==> s@[j] == prefix@[j],
        decreases n - i,
    {
        if s.get_char(i) != prefix.get_char(i) {
            assert(s@.subrange(0, n as int)[i as int] != prefix@[i as int]);
            return false;
        }
        i += 1;
    }
    assert(s@.subrange(0, n as int) =~= prefix@);
    true
}

/// Replaces every `/` in `s` by `\`.
fn to_archive_name(s: &str) -> (r: String)
    ensures
        r@ == archive_name(s@),
{
    let n = s.unicode_len();
    let mut out = String::new();
    let mut i: usize = 0;
    proof {
        reveal_strlit("\\");
    }
    while i < n
        invariant
            n == s@.len(),
            i <= n,
            out@ == archive_name(s@.subrange(0, i as int)),
            "\\"@ == seq![archive_sep()],
        decreases n - i,
    {
        let c = s.get_char(i);
        if c == '/' {
            out.append("\\");
        } else {
            out.append(s.substring_char(i, i + 1));
        }
        assert(archive_name(s@.subrange(0, i + 1)) =~= archive_name(s@.subrange(0, i as int)).push(
            if c == host_sep() { archive_sep() } else { c },
        ));
        i += 1;
    }
    assert(s@.subrange(0, n as int) =~= s@);
    out
}

/// The archive name for absolute file path `file` found under absolute
/// directory `root`: its relative path with archive separators; none when
/// `file` does not lie below `root`.
pub fn entry_name_for(root: &str, file: &str) -> (r: Option<String>)
    ensures
        match r {
            Some(name) => entry_name(root@, file@) == Some(name@),
            None => entry_name(root@, file@) is None,
        },
{
    let n = root.unicode_len();
    let m = file.unicode_len();
    let start: usize = if n > 0 && root.get_char(n - 1) == '/' {
        n
    } else {
        if n >= m {
            return None;
        }
        n + 1
    };
    if start >= m || !starts_with(file, root) {
        return None;
    }
    if start != n && file.get_char(n) != '/' {
        return None;
    }
    let rest = file.substring_char(start, m);
    Some(to_archive_name(rest))
}

/// A file packed from below `root` is extracted under `out` at the same
/// relative path, when that path holds no `\` and no `..` segment.
pub proof fn lemma_pack_then_extract_path(root: Seq<char>, file: Seq<char>, out: Seq<char>)
    requires
        relative_to(root, file) is Some,
        forall|i: int|
            0 <= i < relative_to(root, file)->0.len() ==> relative_to(root, file)->0[i]
                != archive_sep(),
        !has_parent_segment(relative_to(root, file)->0),
    ensures
        entry_name(root, file) matches Some(name) && host_path(normalized(name), out) == Some(
            joined(out, relative_to(root, file)->0),
        ),
{
    let rel = relative_to(root, file)->0;
    assert(normalized(archive_name(rel)) =~= rel);
}

/// Why a file found while packing was left out.
#[derive(Debug)]
pub enum PackWarning {
    Traversal { cause: String },
    Read { path: String, cause: String },
    OutsideRoot { path: String },
}

/// An archive build in progress over the files found below one directory.
/// The walk itself happens elsewhere: each file found, with its contents or
/// the reason they could not be read, and each traversal error is handed
/// in, and the packer decides what the archive receives.
pub struct Packer {
    root: String,
    options: FileOptions,
    build: Creator,
    added: Vec<String>,
    warnings: Vec<PackWarning>,
}

impl Packer {
    /// The absolute directory being packed.
    pub closed spec fn root(&self) -> Seq<char> {
        self.root@
    }

    /// The options every file is added with.
    pub closed spec fn options(&self) -> FileOptions {
        self.options
    }

    /// The files the build holds so far.
    pub closed spec fn entries(&self) -> Map<Seq<char>, Seq<u8>> {
        build_entries(self.build)
    }

    /// The archive names added so far, in order.
    pub closed spec fn added(&self) -> Seq<Seq<char>> {
        views(self.added@)
    }

    /// The warnings recorded so far, in order.
    pub closed spec fn warnings(&self) -> Seq<PackWarning> {
        self.warnings@
    }

    /// Starts packing the files below absolute directory `root`, each to be
    /// added with `options`.
    pub fn new(root: &str, options: FileOptions) -> (r: Packer)
        ensures
            r.root() == root@,
            r.options() == options,
            r.entries().dom().is_empty(),
            r.added() == Seq::<Seq<char>>::empty(),
            r.warnings() == Seq::<PackWarning>::empty(),
    {
        let r = Packer {
            root: String::from_str(root),
            options,
            build: new_build(),
            added: Vec::new(),
            warnings: Vec::new(),
        };
        assert(r.added() =~= Seq::<Seq<char>>::empty());
        r
    }

    /// Takes one regular file found by the walk, at absolute path `path`,
    /// with its contents or the reason they could not be read. A readable
    /// file below the root is added under its archive name; otherwise a
    /// warning is recorded and the build is unchanged.
    pub fn add_file(&mut self, path: &str, contents: Result<Vec<u8>, String>)
        ensures
            final(self).root() == old(self).root(),
            final(self).options() == old(self).options(),
            match (contents, entry_name(old(self).root(), path@)) {
                (Ok(bytes), Some(name)) => {
                    &&& final(self).entries().contains_pair(name, bytes@)
                    &&& forall|k: Seq<char>|
                        #![trigger final(self).entries().contains_key(k)]
                        final(self).entries().contains_key(k) && k != name ==> old(
                            self,
                        ).entries().contains_pair(k, final(self).entries()[k])
                    &&& final(self).added() == old(self).added().push(name)
                    &&& final(self).warnings() == old(self).warnings()
                },
                (Ok(_), None) => {
                    &&& final(self).entries() == old(self).entries()
                    &&& final(self).added() == old(self).added()
                    &&& final(self).warnings().len() == old(self).warnings().len() + 1
                    &&& final(self).warnings().drop_last() == old(self).warnings()
                    &&& final(self).warnings().last() matches PackWarning::OutsideRoot { path: p }
                        && p@ == path@
                },
                (Err(cause), _) => {
                    &&& final(self).entries() == old(self).entries()
                    &&& final(self).added() == old(self).added()
                    &&& final(self).warnings().len() == old(self).warnings().len() + 1
                    &&& final(self).warnings().drop_last() == old(self).warnings()
                    &&& final(self).warnings().last() matches PackWarning::Read { path: p, cause: c }
                        && p@ == path@ && c == cause
                },
            },
    {
        let ghost prev = *self;
        match contents {
            Ok(bytes) => match entry_name_for(self.root.as_str(), path) {
                Some(name) => {
                    add_to_build(&mut self.build, name.as_str(), bytes, self.options);
                    proof {
                        assert(archive_name(name@) =~= name@);
                    }
                    self.added.push(name);
                    assert(self.added() =~= prev.added().push(name@));
                },
                None => {
                    self.warnings.push(PackWarning::OutsideRoot { path: String::from_str(path) });
                    assert(self.warnings().drop_last() =~= prev.warnings());
                },
            },
            Err(cause) => {
                self.warnings.push(PackWarning::Read { path: String::from_str(path), cause });
                assert(self.warnings().drop_last() =~= prev.warnings());
            },
        }
    }

    /// Records an error of the walk; the walk goes on.
    pub fn traversal_error(&mut self, cause: String)
        ensures
            final(self).root() == old(self).root(),
            final(self).options() == old(self).options(),
            final(self).entries() == old(self).entries(),
            final(self).added() == old(self).added(),
            final(self).warnings() == old(self).warnings().push(PackWarning::Traversal { cause }),
    {
        self.warnings.push(PackWarning::Traversal { cause });
    }

    /// The archive names added, in order.
    pub fn added_names(&self) -> (r: &Vec<String>)
        ensures
            views(r@) == self.added(),
    {
        &self.added
    }

    /// The warnings recorded, in order.
    pub fn warning_list(&self) -> (r: &Vec<PackWarning>)
        ensures
            r@ == self.warnings(),
    {
        &self.warnings
    }

    /// Ends the walk: the build, ready to be written out, and the warnings.
    pub fn finish(self) -> (r: (Creator, Vec<PackWarning>))
        ensures
            build_entries(r.0) == self.entries(),
            r.1@ == self.warnings(),
    {
        (self.build, self.warnings)
    }
}

} // verus!
