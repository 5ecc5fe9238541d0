//! The fixed names and places of the package ecosystem that the bootstrap
//! relies on, and how a relative path is placed under a workspace root.

use vstd::prelude::*;
use vstd::string::*;

verus! {

/// The manifest file that declares a workspace's dependencies.
pub const MANIFEST_FILE: &'static str = "package.json";

/// The directory, under the workspace root, that packages are installed into.
pub const INSTALL_DIR: &'static str = "node_modules";

/// The language server's entry script, relative to the workspace root.
pub const SERVER_PATH: &'static str = "node_modules/@rsx/language-server/bin/rsx-language-server.js";

/// The registry name of the language server package.
pub const PACKAGE_NAME: &'static str = "@rsx/language-server";

/// The entry script within the installed package.
pub const SERVER_ENTRY: &'static str = "bin/rsx-language-server.js";

/// The dependency whose presence marks a workspace as carrying its own TypeScript.
pub const TYPESCRIPT_PACKAGE_NAME: &'static str = "typescript";

/// The relative path to TypeScript's SDK.
pub const TYPESCRIPT_TSDK_PATH: &'static str = "node_modules/typescript/lib";

/// The TypeScript SDK to use where the workspace does not declare TypeScript.
/// It is the same place as [`TYPESCRIPT_TSDK_PATH`].
pub const FALLBACK_TSDK_PATH: &'static str = "node_modules/typescript/lib";

/// The interpreter that runs the server script.
pub const INTERPRETER: &'static str = "node";

/// The path separator.
pub const SEPARATOR: char = '/';

/// `relative` placed under `root`: an empty root leaves `relative` as it is,
/// and a separator is put between the two unless `root` already ends in one.
pub open spec fn under(root: Seq<char>, relative: Seq<char>) -> Seq<char> {
    if root.len() == 0 {
        relative
    } else if root.last() == SEPARATOR {
        root + relative
    } else {
        root + seq![SEPARATOR] + relative
    }
}

/// Places `relative` under `root`.
pub fn path_under(root: &str, relative: &str) -> (path: String)
    ensures
        path@ == under(root@, relative@),
{
    let n: usize = root.unicode_len();
    let mut path = String::from_str(root);
    if n == 0 {
        assert(root@ + relative@ =~= relative@);
    } else if root.get_char(n - 1) != SEPARATOR {
        proof {
            reveal_strlit("/");
            assert("/"@ =~= seq![SEPARATOR]);
        }
        path.append("/");
    }
    path.append(relative);
    path
}

/// Where the language server's entry script is expected under `workspace_root`.
pub open spec fn server_binary_path_of(workspace_root: Seq<char>) -> Seq<char> {
    under(workspace_root, SERVER_PATH@)
}

/// The expected location of the language server's entry script.
pub fn server_binary_path(workspace_root: &str) -> (path: String)
    ensures
        path@ == server_binary_path_of(workspace_root@),
{
    path_under(workspace_root, SERVER_PATH)
}

/// Where the manifest file of `workspace_root` is.
pub open spec fn manifest_path_of(workspace_root: Seq<char>) -> Seq<char> {
    under(workspace_root, MANIFEST_FILE@)
}

/// The location of the workspace's manifest file.
pub fn manifest_path(workspace_root: &str) -> (path: String)
    ensures
        path@ == manifest_path_of(workspace_root@),
{
    path_under(workspace_root, MANIFEST_FILE)
}

/// The directory that packages of `workspace_root` are installed into.
pub open spec fn install_dir_of(workspace_root: Seq<char>) -> Seq<char> {
    under(workspace_root, INSTALL_DIR@)
}

/// The workspace's directory for installed packages.
pub fn install_dir(workspace_root: &str) -> (path: String)
    ensures
        path@ == install_dir_of(workspace_root@),
{
    path_under(workspace_root, INSTALL_DIR)
}

} // verus!
