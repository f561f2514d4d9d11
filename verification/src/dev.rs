//! A source of packs and components in a local directory tree, for
//! development. This module says where each file lies under the root.

use crate::error::{DistributorError, DistributorErrorView};
use crate::text::list_chars;
use vstd::prelude::*;
use vstd::string::*;

verus! {

/// How the files are laid out under the root.
#[derive(Clone, Copy, Debug, PartialEq, Eq, Structural)]
pub enum DevLayout {
    /// One file per pack or component, named by id and version.
    Flat,
    /// A directory per id, and in it one per version.
    ByIdAndVersion,
}

/// Where the tree is and how it is laid out.
#[derive(Clone, Debug, PartialEq, Eq)]
pub struct DevConfig {
    pub root_dir: String,
    pub packs_dir: String,
    pub components_dir: String,
    pub layout: DevLayout,
}

impl Default for DevConfig {
    fn default() -> (cfg: DevConfig)
        ensures
            cfg.root_dir@ == ".greentic/dev"@,
            cfg.packs_dir@ == "packs"@,
            cfg.components_dir@ == "components"@,
            cfg.layout == DevLayout::Flat,
    {
        DevConfig {
            root_dir: String::from_str(".greentic/dev"),
            packs_dir: String::from_str("packs"),
            components_dir: String::from_str("components"),
            layout: DevLayout::Flat,
        }
    }
}

/// Why a read failed.
#[derive(Clone, Debug, PartialEq, Eq)]
pub enum ReadFailure {
    NotFound,
    Other(String),
}

/// The names that lead from the root to a file of the tree: the
/// directory of its kind, then `<id>-<version><suffix>` in a flat layout,
/// or the id, the version and `file_name` in a nested one.
pub open spec fn dev_path_spec(
    layout: DevLayout,
    kind_dir: Seq<char>,
    id: Seq<char>,
    version: Seq<char>,
    suffix: Seq<char>,
    file_name: Seq<char>,
) -> Seq<Seq<char>> {
    match layout {
        DevLayout::Flat => seq![kind_dir, id + "-"@ + version + suffix],
        DevLayout::ByIdAndVersion => seq![kind_dir, id, version, file_name],
    }
}

/// Serves packs and components from a local directory tree.
#[derive(Debug)]
pub struct DevDistributorSource {
    pub cfg: DevConfig,
}

impl DevDistributorSource {
    /// A source on the tree that `cfg` describes.
    pub fn new(cfg: DevConfig) -> (source: DevDistributorSource)
        ensures
            source.cfg == cfg,
    {
        DevDistributorSource { cfg }
    }

    /// The root of the tree.
    pub fn root(&self) -> (root: &str)
        ensures
            root@ == self.cfg.root_dir@,
    {
        self.cfg.root_dir.as_str()
    }

    fn path_below(
        &self,
        kind_dir: &str,
        id: &str,
        version: &str,
        suffix: &str,
        file_name: &str,
    ) -> (path: Vec<String>)
        ensures
            list_chars(path@) == dev_path_spec(
                self.cfg.layout,
                kind_dir@,
                id@,
                version@,
                suffix@,
                file_name@,
            ),
    {
        let mut path: Vec<String> = Vec::new();
        path.push(kind_dir.to_owned());
        match self.cfg.layout {
            DevLayout::Flat => {
                path.push(String::from_str(id).concat("-").concat(version).concat(suffix));
            },
            DevLayout::ByIdAndVersion => {
                path.push(id.to_owned());
                path.push(version.to_owned());
                path.push(file_name.to_owned());
            },
        }
        assert(list_chars(path@) =~= dev_path_spec(
            self.cfg.layout,
            kind_dir@,
            id@,
            version@,
            suffix@,
            file_name@,
        ));
        path
    }

    /// The names that lead from the root to the file of a pack.
    pub fn pack_path(&self, pack_id: &str, version: &str) -> (path: Vec<String>)
        ensures
            list_chars(path@) == dev_path_spec(
                self.cfg.layout,
                self.cfg.packs_dir@,
                pack_id@,
                version@,
                ".gtpack"@,
                "pack.gtpack"@,
            ),
    {
        self.path_below(self.cfg.packs_dir.as_str(), pack_id, version, ".gtpack", "pack.gtpack")
    }

    /// The names that lead from the root to the file of a component.
    pub fn component_path(&self, component_id: &str, version: &str) -> (path: Vec<String>)
        ensures
            list_chars(path@) == dev_path_spec(
                self.cfg.layout,
                self.cfg.components_dir@,
                component_id@,
                version@,
                ".wasm"@,
                "component.wasm"@,
            ),
    {
        self.path_below(
            self.cfg.components_dir.as_str(),
            component_id,
            version,
            ".wasm",
            "component.wasm",
        )
    }

    /// What a read of one of the tree's files comes to: the bytes, or
    /// the error for the failure.
    pub fn read_file(&self, outcome: Result<Vec<u8>, ReadFailure>) -> (res: Result<
        Vec<u8>,
        DistributorError,
    >)
        ensures
            match outcome {
                Ok(bytes) => res == Ok::<Vec<u8>, DistributorError>(bytes),
                Err(ReadFailure::NotFound) => res is Err && res->Err_0@
                    == DistributorErrorView::NotFound,
                Err(ReadFailure::Other(m)) => res is Err && res->Err_0@ == DistributorErrorView::Io(
                    m@,
                ),
            },
    {
        match outcome {
            Ok(bytes) => Ok(bytes),
            Err(ReadFailure::NotFound) => Err(DistributorError::NotFound),
            Err(ReadFailure::Other(m)) => Err(DistributorError::Io(m)),
        }
    }
}

} // verus!
