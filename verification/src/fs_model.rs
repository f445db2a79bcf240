use vstd::prelude::*;

verus! {

/// One regular file of a directory tree: its path, as components relative to
/// the tree's root (subdirectories flattened into the leading components),
/// and its content.
pub struct FsFile {
    pub path: Vec<String>,
    pub data: Vec<u8>,
}

/// The mathematical value of one file: path components and content.
#[verifier::ext_equal]
pub ghost struct FsEntry {
    pub path: Seq<Seq<char>>,
    pub data: Seq<u8>,
}

/// A directory tree, as the flat list of the regular files below its root.
pub struct DirTree {
    pub files: Vec<FsFile>,
}

impl View for FsFile {
    type V = FsEntry;

    open spec fn view(&self) -> FsEntry {
        FsEntry { path: self.path.deep_view(), data: self.data@ }
    }
}

impl View for DirTree {
    type V = Seq<FsEntry>;

    open spec fn view(&self) -> Seq<FsEntry> {
        self.files@.map_values(|f: FsFile| f@)
    }
}

/// No two files of a tree share a path.
pub open spec fn spec_paths_unique(files: Seq<FsEntry>) -> bool {
    forall|i: int, j: int|
        0 <= i < j < files.len() ==> (#[trigger] files[i]).path != (#[trigger] files[j]).path
}

pub open spec fn spec_has_path(files: Seq<FsEntry>, p: Seq<Seq<char>>) -> bool {
    exists|i: int| 0 <= i < files.len() && (#[trigger] files[i]).path == p
}

/// The content of the first file at path `p`; under `spec_paths_unique` the
/// first is the only one.
pub open spec fn spec_data_at(files: Seq<FsEntry>, p: Seq<Seq<char>>) -> Seq<u8>
    decreases files.len(),
{
    if files.len() == 0 {
        Seq::empty()
    } else if files[0].path == p {
        files[0].data
    } else {
        spec_data_at(files.skip(1), p)
    }
}

/// The add-only merge: source files are taken in order, and each is appended
/// to the destination exactly when the destination does not hold its path
/// yet. No destination file is removed or overwritten.
pub open spec fn spec_add_only_merge(src: Seq<FsEntry>, dst: Seq<FsEntry>) -> Seq<FsEntry>
    decreases src.len(),
{
    if src.len() == 0 {
        dst
    } else {
        let d2 = if spec_has_path(dst, src[0].path) {
            dst
        } else {
            dst.push(src[0])
        };
        spec_add_only_merge(src.skip(1), d2)
    }
}

impl DirTree {
    pub open spec fn wf(self) -> bool {
        spec_paths_unique(self@)
    }

    pub fn new() -> (r: DirTree)
        ensures
            r@ =~= Seq::<FsEntry>::empty(),
            r.wf(),
    {
        DirTree { files: Vec::new() }
    }

    /// Whether the tree holds a file at exactly this path.
    pub fn has_path(&self, p: &Vec<String>) -> (r: bool)
        ensures
            r == spec_has_path(self@, p.deep_view()),
    {
        let n = self.files.len();
        let mut i: usize = 0;
        while i < n
            invariant
                i <= n,
                n == self.files@.len(),
                forall|j: int| 0 <= j < i ==> (#[trigger] self@[j]).path != p.deep_view(),
            decreases n - i,
        {
            if paths_equal(&self.files[i].path, p) {
                proof {
                    assert(self@[i as int].path == p.deep_view());
                }
                return true;
            }
            proof {
                assert(self@[i as int].path != p.deep_view());
            }
            i = i + 1;
        }
        false
    }
}

/// Whether two paths have the same components.
pub fn paths_equal(a: &Vec<String>, b: &Vec<String>) -> (r: bool)
    ensures
        r == (a.deep_view() == b.deep_view()),
{
    let n = a.len();
    if n != b.len() {
        proof {
            assert(a.deep_view().len() != b.deep_view().len());
        }
        return false;
    }
    let mut i: usize = 0;
    while i < n
        invariant
            i <= n,
            n == a@.len(),
            n == b@.len(),
            forall|j: int| 0 <= j < i ==> a.deep_view()[j] == b.deep_view()[j],
        decreases n - i,
    {
        if !(a[i] == b[i]) {
            proof {
                assert(a.deep_view()[i as int] != b.deep_view()[i as int]);
            }
            return false;
        }
        proof {
            assert(a.deep_view()[i as int] == b.deep_view()[i as int]);
        }
        i = i + 1;
    }
    proof {
        assert(a.deep_view() =~= b.deep_view());
    }
    true
}

/// A copy of a file denoting the same path and content.
pub fn clone_file(f: &FsFile) -> (r: FsFile)
    ensures
        r@ == f@,
{
    let path = clone_strings(&f.path);
    let mut data: Vec<u8> = Vec::new();
    let n = f.data.len();
    let mut i: usize = 0;
    while i < n
        invariant
            i <= n,
            n == f.data@.len(),
            data@ == f.data@.take(i as int),
        decreases n - i,
    {
        data.push(f.data[i]);
        proof {
            assert(data@ =~= f.data@.take(i + 1));
        }
        i = i + 1;
    }
    proof {
        assert(data@ =~= f.data@);
    }
    let r = FsFile { path, data };
    proof {
        assert(r@ =~= f@);
    }
    r
}

/// A copy of a component list holding equal components.
pub fn clone_strings(v: &Vec<String>) -> (r: Vec<String>)
    ensures
        r@ == v@,
        r.deep_view() == v.deep_view(),
{
    let mut r: Vec<String> = Vec::new();
    let n = v.len();
    let mut i: usize = 0;
    while i < n
        invariant
            i <= n,
            n == v@.len(),
            r@ =~= v@.take(i as int),
        decreases n - i,
    {
        r.push(v[i].clone());
        proof {
            assert(r@ =~= v@.take(i + 1));
        }
        i = i + 1;
    }
    proof {
        assert(r@ =~= v@);
        assert(r.deep_view() =~= v.deep_view());
    }
    r
}

/// Merges `src` into `dst` additively: files whose path `dst` already holds
/// are skipped, all others are appended in `src` order. Returns how many
/// files were copied.
pub fn copy_dir_add_only(src: &DirTree, dst: &mut DirTree) -> (copied: usize)
    ensures
        final(dst)@ == spec_add_only_merge(src@, old(dst)@),
        copied == final(dst)@.len() - old(dst)@.len(),
{
    let n = src.files.len();
    let mut copied: usize = 0;
    let mut i: usize = 0;
    proof {
        assert(src@.skip(0) =~= src@);
    }
    while i < n
        invariant
            i <= n,
            n == src@.len(),
            dst@.len() == old(dst)@.len() + copied,
            copied <= i,
            spec_add_only_merge(src@.skip(i as int), dst@) == spec_add_only_merge(
                src@,
                old(dst)@,
            ),
        decreases n - i,
    {
        let ghost pre = dst@;
        proof {
            assert(src@.skip(i as int)[0] == src@[i as int]);
            assert(src@.skip(i as int).skip(1) =~= src@.skip(i + 1));
        }
        if !dst.has_path(&src.files[i].path) {
            let f = clone_file(&src.files[i]);
            dst.files.push(f);
            copied = copied + 1;
            proof {
                assert(src@[i as int] == src.files@[i as int]@);
                assert(dst@ =~= pre.push(src@[i as int]));
            }
        }
        i = i + 1;
    }
    proof {
        assert(src@.skip(n as int) =~= Seq::<FsEntry>::empty());
        assert(spec_add_only_merge(Seq::<FsEntry>::empty(), dst@) == dst@);
    }
    copied
}

/// Appending a file does not disturb what the list already says about other
/// paths: an existing path keeps its content, and a path the list lacks gains
/// the appended file's content exactly when the file carries it.
proof fn lemma_data_at_push(files: Seq<FsEntry>, f: FsEntry, p: Seq<Seq<char>>)
    ensures
        spec_has_path(files, p) ==> spec_data_at(files.push(f), p) == spec_data_at(files, p),
        !spec_has_path(files, p) && f.path == p ==> spec_data_at(files.push(f), p) == f.data,
        spec_has_path(files.push(f), p) <==> spec_has_path(files, p) || f.path == p,
    decreases files.len(),
{
    if files.len() == 0 {
        assert(files.push(f)[0] == f);
        if f.path == p {
            assert(spec_has_path(files.push(f), p));
        } else {
            assert(files.push(f).skip(1) =~= Seq::<FsEntry>::empty());
            assert(!spec_has_path(files.push(f), p)) by {
                if spec_has_path(files.push(f), p) {
                    let i = choose|i: int|
                        0 <= i < files.push(f).len() && files.push(f)[i].path == p;
                    assert(i == 0);
                }
            }
        }
    } else {
        assert(files.push(f).skip(1) =~= files.skip(1).push(f));
        lemma_data_at_push(files.skip(1), f, p);
        assert(spec_has_path(files, p) <==> (files[0].path == p || spec_has_path(
            files.skip(1),
            p,
        ))) by {
            lemma_has_path_skip(files, p);
        }
        assert(spec_has_path(files.push(f), p) <==> (files.push(f)[0].path == p || spec_has_path(
            files.push(f).skip(1),
            p,
        ))) by {
            lemma_has_path_skip(files.push(f), p);
        }
        assert(files.push(f)[0] == files[0]);
    }
}

/// A path occurs in a non-empty list exactly when the head carries it or the
/// tail holds it.
proof fn lemma_has_path_skip(files: Seq<FsEntry>, p: Seq<Seq<char>>)
    requires
        files.len() > 0,
    ensures
        spec_has_path(files, p) <==> (files[0].path == p || spec_has_path(files.skip(1), p)),
{
    if spec_has_path(files, p) {
        let i = choose|i: int| 0 <= i < files.len() && files[i].path == p;
        if i > 0 {
            assert(files.skip(1)[i - 1] == files[i]);
            assert(spec_has_path(files.skip(1), p));
        }
    }
    if spec_has_path(files.skip(1), p) {
        let i = choose|i: int| 0 <= i < files.skip(1).len() && files.skip(1)[i].path == p;
        assert(files[i + 1] == files.skip(1)[i]);
    }
    if files[0].path == p {
        assert(spec_has_path(files, p));
    }
}

/// The merge result holds a path exactly when the source or the destination
/// held it.
pub proof fn lemma_merge_has_path(src: Seq<FsEntry>, dst: Seq<FsEntry>, p: Seq<Seq<char>>)
    ensures
        spec_has_path(spec_add_only_merge(src, dst), p) <==> (spec_has_path(src, p)
            || spec_has_path(dst, p)),
    decreases src.len(),
{
    if src.len() > 0 {
        let d2 = if spec_has_path(dst, src[0].path) {
            dst
        } else {
            dst.push(src[0])
        };
        lemma_data_at_push(dst, src[0], p);
        lemma_merge_has_path(src.skip(1), d2, p);
        lemma_has_path_skip(src, p);
    }
}

/// The merge never overwrites: a path the destination already holds keeps the
/// destination's content.
pub proof fn lemma_merge_keeps_existing(src: Seq<FsEntry>, dst: Seq<FsEntry>, p: Seq<Seq<char>>)
    requires
        spec_has_path(dst, p),
    ensures
        spec_data_at(spec_add_only_merge(src, dst), p) == spec_data_at(dst, p),
    decreases src.len(),
{
    if src.len() > 0 {
        let d2 = if spec_has_path(dst, src[0].path) {
            dst
        } else {
            dst.push(src[0])
        };
        lemma_data_at_push(dst, src[0], p);
        lemma_merge_keeps_existing(src.skip(1), d2, p);
    }
}

/// The merge fills every gap: a path the destination lacks but the source
/// holds ends up with the source's content.
pub proof fn lemma_merge_adds_fresh(src: Seq<FsEntry>, dst: Seq<FsEntry>, p: Seq<Seq<char>>)
    requires
        !spec_has_path(dst, p),
        spec_has_path(src, p),
    ensures
        spec_data_at(spec_add_only_merge(src, dst), p) == spec_data_at(src, p),
    decreases src.len(),
{
    lemma_has_path_skip(src, p);
    lemma_data_at_push(dst, src[0], p);
    if src[0].path == p {
        let d2 = dst.push(src[0]);
        assert(spec_data_at(d2, p) == src[0].data);
        lemma_merge_keeps_existing(src.skip(1), d2, p);
    } else {
        let d2 = if spec_has_path(dst, src[0].path) {
            dst
        } else {
            dst.push(src[0])
        };
        assert(!spec_has_path(d2, p));
        lemma_merge_adds_fresh(src.skip(1), d2, p);
    }
}

/// The merge removes nothing: the destination's files stay in place, in
/// order and with their content, as a prefix of the result.
pub proof fn lemma_merge_extends(src: Seq<FsEntry>, dst: Seq<FsEntry>)
    ensures
        spec_add_only_merge(src, dst).len() >= dst.len(),
        forall|k: int|
            0 <= k < dst.len() ==> #[trigger] spec_add_only_merge(src, dst)[k] == dst[k],
    decreases src.len(),
{
    if src.len() > 0 {
        let d2 = if spec_has_path(dst, src[0].path) {
            dst
        } else {
            dst.push(src[0])
        };
        lemma_merge_extends(src.skip(1), d2);
    }
}

/// Merging into a tree with unique paths yields a tree with unique paths.
pub proof fn lemma_merge_wf(src: Seq<FsEntry>, dst: Seq<FsEntry>)
    requires
        spec_paths_unique(dst),
    ensures
        spec_paths_unique(spec_add_only_merge(src, dst)),
    decreases src.len(),
{
    if src.len() > 0 {
        if spec_has_path(dst, src[0].path) {
            lemma_merge_wf(src.skip(1), dst);
        } else {
            let d2 = dst.push(src[0]);
            assert(spec_paths_unique(d2)) by {
                assert forall|i: int, j: int| 0 <= i < j < d2.len() implies (
                #[trigger] d2[i]).path != (#[trigger] d2[j]).path by {
                    if j == d2.len() - 1 {
                        assert(d2[j] == src[0]);
                        assert(d2[i] == dst[i]);
                        if d2[i].path == src[0].path {
                            assert(spec_has_path(dst, src[0].path));
                        }
                    }
                }
            }
            lemma_merge_wf(src.skip(1), d2);
        }
    }
}

} // verus!
