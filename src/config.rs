//! Settings of a run and the layout that the target repository must have.

use vstd::prelude::*;

use crate::text::owned;

verus! {

/// Settings of a run.
#[derive(Clone, Debug)]
pub struct Config {
    pub feishu_app_id: String,
    pub feishu_app_secret: String,
    pub bitable_app_token: String,
    pub table_id_products: String,
    pub table_id_brands: String,
    pub table_id_display_categories: String,
    pub table_id_media: String,
    pub table_id_store_info: String,
    /// Empty when the app has no slogans table.
    pub table_id_slogans: String,
    /// Root of the repository that receives the output.
    pub repo_root: String,
}

/// `rel` under `base`, with one `/` between them unless `base` is empty or
/// already ends with one.
pub open spec fn path_join(base: Seq<char>, rel: Seq<char>) -> Seq<char> {
    if base.len() == 0 || base.last() == '/' {
        base + rel
    } else {
        base + seq!['/'] + rel
    }
}

/// Joins a relative path onto a base path.
pub fn join_path(base: &str, rel: &str) -> (r: String)
    ensures
        r@ == path_join(base@, rel@),
{
    let n = base.unicode_len();
    let mut r = owned(base);
    if n > 0 && base.get_char(n - 1) != '/' {
        proof {
            reveal_strlit("/");
        }
        r.append("/");
    }
    r.append(rel);
    assert(r@ =~= path_join(base@, rel@));
    r
}

/// Which parts of the repository layout exist.
#[derive(Clone, Copy, Debug, PartialEq, Eq, Structural)]
pub struct RepoLayout {
    pub root: bool,
    pub git_dir: bool,
    pub package_json: bool,
    pub data_dir: bool,
    pub public_dir: bool,
}

/// What is wrong with the repository layout.
#[derive(Clone, Copy, Debug, PartialEq, Eq, Structural)]
pub enum ConfigError {
    MissingRepoRoot,
    NotAGitRepository,
    MissingPackageJson,
    MissingDataDir,
    MissingPublicDir,
}

impl Config {
    /// Where the data files go.
    pub fn data_dir(&self) -> (r: String)
        ensures
            r@ == path_join(self.repo_root@, "src/data"@),
    {
        join_path(self.repo_root.as_str(), "src/data")
    }

    /// Where the published assets go.
    pub fn public_dir(&self) -> (r: String)
        ensures
            r@ == path_join(self.repo_root@, "public"@),
    {
        join_path(self.repo_root.as_str(), "public")
    }

    /// The paths whose presence `validate` needs, in the order of the
    /// fields of `RepoLayout`.
    pub fn layout_paths(&self) -> (r: Vec<String>)
        ensures
            r@.len() == 5,
            r@[0]@ == self.repo_root@,
            r@[1]@ == path_join(self.repo_root@, ".git"@),
            r@[2]@ == path_join(self.repo_root@, "package.json"@),
            r@[3]@ == path_join(self.repo_root@, "src/data"@),
            r@[4]@ == path_join(self.repo_root@, "public"@),
    {
        let mut r: Vec<String> = Vec::new();
        r.push(self.repo_root.clone());
        r.push(join_path(self.repo_root.as_str(), ".git"));
        r.push(join_path(self.repo_root.as_str(), "package.json"));
        r.push(self.data_dir());
        r.push(self.public_dir());
        r
    }

    /// Fails on the first missing part of the layout: the root, `.git`,
    /// `package.json`, the data directory, then the public directory.
    pub fn validate(&self, found: &RepoLayout) -> (r: Result<(), ConfigError>)
        ensures
            r == (if !found.root {
                Err(ConfigError::MissingRepoRoot)
            } else if !found.git_dir {
                Err(ConfigError::NotAGitRepository)
            } else if !found.package_json {
                Err(ConfigError::MissingPackageJson)
            } else if !found.data_dir {
                Err(ConfigError::MissingDataDir)
            } else if !found.public_dir {
                Err(ConfigError::MissingPublicDir)
            } else {
                Ok(())
            }),
    {
        if !found.root {
            Err(ConfigError::MissingRepoRoot)
        } else if !found.git_dir {
            Err(ConfigError::NotAGitRepository)
        } else if !found.package_json {
            Err(ConfigError::MissingPackageJson)
        } else if !found.data_dir {
            Err(ConfigError::MissingDataDir)
        } else if !found.public_dir {
            Err(ConfigError::MissingPublicDir)
        } else {
            Ok(())
        }
    }
}

} // verus!
