use vstd::prelude::*;
use vstd::string::*;

verus! {

/// The name of the directory, below the output directory, that receives
/// the Dockerfile and its supporting files.
pub open spec fn assets_dir_name() -> Seq<char> {
    ".nixpacks"@
}

/// Joining a relative path component onto a base path: a `/` is put between
/// them unless the base is empty or already ends with one.
pub open spec fn path_join(base: Seq<char>, name: Seq<char>) -> Seq<char> {
    if base.len() == 0 || base.last() == '/' {
        base + name
    } else {
        base + seq!['/'] + name
    }
}

/// Joins the relative component `name` onto `base`.
pub fn join_path(base: &str, name: &str) -> (joined: String)
    ensures
        joined@ == path_join(base@, name@),
{
    let mut joined = base.to_owned();
    let n = base.unicode_len();
    if n > 0 && base.get_char(n - 1) != '/' {
        proof {
            reveal_strlit("/");
        }
        joined.append("/");
    }
    joined.append(name);
    joined
}

/// Where generated assets are written: the output directory itself and the
/// assets directory below it.
#[derive(Debug)]
pub struct OutputDir {
    /// The output directory that the caller provided.
    pub root: String,
    /// `root` joined with the assets directory name.
    pub asset_root: String,
}

impl OutputDir {
    /// The layout is well formed when the assets directory lies below the root.
    pub open spec fn wf(&self) -> bool {
        self.asset_root@ == path_join(self.root@, assets_dir_name())
    }

    /// Lays out assets below `root`.
    pub fn new(root: String) -> (dir: OutputDir)
        ensures
            dir.root == root,
            dir.wf(),
    {
        let asset_root = join_path(root.as_str(), ".nixpacks");
        OutputDir { root, asset_root }
    }

    /// The path of the asset called `name` inside the assets directory.
    pub fn get_absolute_path(&self, name: &str) -> (path: String)
        ensures
            path@ == path_join(self.asset_root@, name@),
    {
        join_path(self.asset_root.as_str(), name)
    }
}

} // verus!
