//! A plain model of the project's package graph.
//!
//! An external metadata provider computes the full dependency graph of the
//! workspace; this module holds the parts the pipeline reads — packages with
//! their declared dependencies and targets, and the per-package resolved
//! feature lists — and resolves the kernel's `bootloader` dependency in it.

use crate::builder::error::BootloaderError;
use crate::strutil;
use vstd::prelude::*;

verus! {

/// A dependency declared by a package: its package name, and the local
/// rename under which the package refers to it, if any.
pub struct Dependency {
    /// The name of the depended-on package.
    pub name: String,
    /// The rename under which the dependency is used, if declared.
    pub rename: Option<String>,
}

/// A build target of a package.
pub struct CargoTarget {
    /// The target's name.
    pub name: String,
    /// The target's kinds, such as `bin` or `lib`.
    pub kinds: Vec<String>,
}

/// One package of the graph.
pub struct Package {
    /// The package name.
    pub name: String,
    /// The unique package id used by the resolve graph.
    pub id: String,
    /// The path of the package's manifest.
    pub manifest_path: String,
    /// The dependencies the package declares.
    pub dependencies: Vec<Dependency>,
    /// The targets the package builds.
    pub targets: Vec<CargoTarget>,
}

/// One node of the feature-resolution graph.
pub struct ResolveNode {
    /// The id of the package the node describes.
    pub id: String,
    /// The features enabled for that package.
    pub features: Vec<String>,
}

/// The package graph: packages, the optional feature-resolution graph, and
/// the workspace's target directory.
pub struct PackageGraph {
    /// All packages of the workspace and its dependencies.
    pub packages: Vec<Package>,
    /// The feature-resolution graph, if the provider supplied one.
    pub resolve: Option<Vec<ResolveNode>>,
    /// The workspace's target directory.
    pub target_directory: String,
}

/// The name under which a dependency is referred to: its rename if it has
/// one, its package name otherwise.
pub open spec fn spec_effective_name(d: Dependency) -> Seq<char> {
    match d.rename {
        Some(r) => r@,
        None => d.name@,
    }
}

/// The first dependency of `deps` whose effective name is `bootloader`.
pub open spec fn spec_bootloader_dependency(deps: Seq<Dependency>) -> Option<Dependency>
    decreases deps.len(),
{
    if deps.len() == 0 {
        None
    } else if spec_effective_name(deps[0]) == "bootloader"@ {
        Some(deps[0])
    } else {
        spec_bootloader_dependency(deps.skip(1))
    }
}

/// The first package of `packages` with the given name.
pub open spec fn spec_package_by_name(packages: Seq<Package>, name: Seq<char>) -> Option<Package>
    decreases packages.len(),
{
    if packages.len() == 0 {
        None
    } else if packages[0].name@ == name {
        Some(packages[0])
    } else {
        spec_package_by_name(packages.skip(1), name)
    }
}

/// The first package of `packages` whose manifest path is `path`.
pub open spec fn spec_package_by_manifest(packages: Seq<Package>, path: Seq<char>) -> Option<
    Package,
>
    decreases packages.len(),
{
    if packages.len() == 0 {
        None
    } else if packages[0].manifest_path@ == path {
        Some(packages[0])
    } else {
        spec_package_by_manifest(packages.skip(1), path)
    }
}

/// The first node of `nodes` describing the package with id `id`.
pub open spec fn spec_resolve_node(nodes: Seq<ResolveNode>, id: Seq<char>) -> Option<ResolveNode>
    decreases nodes.len(),
{
    if nodes.len() == 0 {
        None
    } else if nodes[0].id@ == id {
        Some(nodes[0])
    } else {
        spec_resolve_node(nodes.skip(1), id)
    }
}

impl PackageGraph {
    /// The first package whose manifest path is `path`, if any.
    pub fn package_by_manifest<'a>(&'a self, path: &str) -> (r: Option<&'a Package>)
        ensures
            match r {
                Some(p) => spec_package_by_manifest(self.packages@, path@) == Some(*p),
                None => spec_package_by_manifest(self.packages@, path@) is None,
            },
    {
        let ghost ps = self.packages@;
        let mut i: usize = 0;
        proof {
            assert(ps.skip(0) =~= ps);
        }
        while i < self.packages.len()
            invariant
                ps == self.packages@,
                i <= self.packages.len(),
                spec_package_by_manifest(ps, path@) == spec_package_by_manifest(
                    ps.skip(i as int),
                    path@,
                ),
            decreases self.packages.len() - i,
        {
            proof {
                assert(ps.skip(i as int)[0] == ps[i as int]);
                assert(ps.skip(i as int).skip(1) =~= ps.skip(i + 1));
            }
            if strutil::str_eq(self.packages[i].manifest_path.as_str(), path) {
                return Some(&self.packages[i]);
            }
            i += 1;
        }
        proof {
            assert(ps.skip(ps.len() as int) =~= Seq::<Package>::empty());
        }
        None
    }

    /// The first package with the given name, if any.
    pub fn package_by_name<'a>(&'a self, name: &str) -> (r: Option<&'a Package>)
        ensures
            match r {
                Some(p) => spec_package_by_name(self.packages@, name@) == Some(*p),
                None => spec_package_by_name(self.packages@, name@) is None,
            },
    {
        let ghost ps = self.packages@;
        let mut i: usize = 0;
        proof {
            assert(ps.skip(0) =~= ps);
        }
        while i < self.packages.len()
            invariant
                ps == self.packages@,
                i <= self.packages.len(),
                spec_package_by_name(ps, name@) == spec_package_by_name(ps.skip(i as int), name@),
            decreases self.packages.len() - i,
        {
            proof {
                assert(ps.skip(i as int)[0] == ps[i as int]);
                assert(ps.skip(i as int).skip(1) =~= ps.skip(i + 1));
            }
            if strutil::str_eq(self.packages[i].name.as_str(), name) {
                return Some(&self.packages[i]);
            }
            i += 1;
        }
        proof {
            assert(ps.skip(ps.len() as int) =~= Seq::<Package>::empty());
        }
        None
    }

    /// The feature-resolution node for the package with id `id`, if the
    /// resolve graph is present and has one.
    pub fn resolve_node<'a>(&'a self, id: &str) -> (r: Option<&'a ResolveNode>)
        requires
            self.resolve is Some,
        ensures
            match r {
                Some(n) => spec_resolve_node(self.resolve->Some_0@, id@) == Some(*n),
                None => spec_resolve_node(self.resolve->Some_0@, id@) is None,
            },
    {
        let nodes = match &self.resolve {
            Some(nodes) => nodes,
            None => {
                return None;
            },
        };
        let ghost ns = nodes@;
        let mut i: usize = 0;
        proof {
            assert(ns.skip(0) =~= ns);
        }
        while i < nodes.len()
            invariant
                self.resolve matches Some(nv) && nv@ == ns,
                ns == nodes@,
                i <= nodes.len(),
                spec_resolve_node(ns, id@) == spec_resolve_node(ns.skip(i as int), id@),
            decreases nodes.len() - i,
        {
            proof {
                assert(ns.skip(i as int)[0] == ns[i as int]);
                assert(ns.skip(i as int).skip(1) =~= ns.skip(i + 1));
            }
            if strutil::str_eq(nodes[i].id.as_str(), id) {
                return Some(&nodes[i]);
            }
            i += 1;
        }
        proof {
            assert(ns.skip(ns.len() as int) =~= Seq::<ResolveNode>::empty());
        }
        None
    }
}

/// `t` is a binary target with the given name.
pub open spec fn spec_target_is_bin_named(t: CargoTarget, name: Seq<char>) -> bool {
    t.name@ == name && exists|i: int| 0 <= i < t.kinds@.len() && #[trigger] t.kinds@[i]@ == "bin"@
}

/// `p` builds a binary target with the given name.
pub open spec fn spec_package_has_bin(p: Package, name: Seq<char>) -> bool {
    exists|i: int|
        0 <= i < p.targets@.len() && spec_target_is_bin_named(#[trigger] p.targets@[i], name)
}

/// The first package of `packages` that builds a binary named `name`.
pub open spec fn spec_package_for_bin(packages: Seq<Package>, name: Seq<char>) -> Option<Package>
    decreases packages.len(),
{
    if packages.len() == 0 {
        None
    } else if spec_package_has_bin(packages[0], name) {
        Some(packages[0])
    } else {
        spec_package_for_bin(packages.skip(1), name)
    }
}

/// `t` is a test target: a binary whose only kind is `bin` and whose name
/// marks it as a test.
pub open spec fn spec_is_test_target(t: CargoTarget) -> bool {
    t.kinds@.len() == 1 && t.kinds@[0]@ == "bin"@ && strutil::spec_starts_with(t.name@, "test-"@)
}

/// The names of the test targets of `targets`, in order.
pub open spec fn spec_test_target_names(targets: Seq<CargoTarget>) -> Seq<Seq<char>>
    decreases targets.len(),
{
    if targets.len() == 0 {
        Seq::empty()
    } else {
        (if spec_is_test_target(targets[0]) {
            seq![targets[0].name@]
        } else {
            Seq::<Seq<char>>::empty()
        }) + spec_test_target_names(targets.skip(1))
    }
}

impl CargoTarget {
    /// Whether this target is a binary with the given name.
    pub fn is_bin_named(&self, name: &str) -> (r: bool)
        ensures
            r == spec_target_is_bin_named(*self, name@),
    {
        if !strutil::str_eq(self.name.as_str(), name) {
            return false;
        }
        let mut i: usize = 0;
        while i < self.kinds.len()
            invariant
                self.name@ == name@,
                i <= self.kinds.len(),
                forall|k: int| 0 <= k < i ==> #[trigger] self.kinds@[k]@ != "bin"@,
            decreases self.kinds.len() - i,
        {
            if strutil::str_eq(self.kinds[i].as_str(), "bin") {
                return true;
            }
            i += 1;
        }
        false
    }
}

impl Package {
    /// Whether this package builds a binary with the given name.
    pub fn has_bin(&self, name: &str) -> (r: bool)
        ensures
            r == spec_package_has_bin(*self, name@),
    {
        let mut i: usize = 0;
        while i < self.targets.len()
            invariant
                i <= self.targets.len(),
                forall|k: int|
                    0 <= k < i ==> !spec_target_is_bin_named(#[trigger] self.targets@[k], name@),
            decreases self.targets.len() - i,
        {
            if self.targets[i].is_bin_named(name) {
                return true;
            }
            i += 1;
        }
        false
    }

    /// The names of this package's test targets: binaries whose name marks
    /// them as tests, in declaration order.
    pub fn test_target_names(&self) -> (r: Vec<String>)
        ensures
            r.deep_view() == spec_test_target_names(self.targets@),
    {
        let ghost ts = self.targets@;
        let mut res: Vec<String> = Vec::new();
        let mut i: usize = 0;
        proof {
            assert(ts.skip(0) =~= ts);
            assert(Seq::<Seq<char>>::empty() + spec_test_target_names(ts)
                =~= spec_test_target_names(ts));
        }
        while i < self.targets.len()
            invariant
                ts == self.targets@,
                i <= self.targets.len(),
                spec_test_target_names(ts) == res.deep_view() + spec_test_target_names(
                    ts.skip(i as int),
                ),
            decreases self.targets.len() - i,
        {
            let ghost rest = ts.skip(i as int);
            let ghost prev = res.deep_view();
            proof {
                assert(rest[0] == ts[i as int]);
                assert(rest.skip(1) =~= ts.skip(i + 1));
            }
            let is_test = if self.targets[i].kinds.len() == 1 {
                if strutil::str_eq(self.targets[i].kinds[0].as_str(), "bin") {
                    strutil::starts_with(self.targets[i].name.as_str(), "test-")
                } else {
                    false
                }
            } else {
                false
            };
            if is_test {
                res.push(self.targets[i].name.clone());
                proof {
                    assert(res.deep_view() =~~= prev.push(ts[i as int].name@));
                    assert(prev + (seq![ts[i as int].name@] + spec_test_target_names(
                        ts.skip(i + 1),
                    )) =~= prev.push(ts[i as int].name@) + spec_test_target_names(ts.skip(i + 1)));
                }
            } else {
                proof {
                    assert(prev + (Seq::<Seq<char>>::empty() + spec_test_target_names(
                        ts.skip(i + 1),
                    )) =~= prev + spec_test_target_names(ts.skip(i + 1)));
                }
            }
            i += 1;
        }
        proof {
            assert(ts.skip(ts.len() as int) =~= Seq::<CargoTarget>::empty());
            assert(res.deep_view() + Seq::<Seq<char>>::empty() =~= res.deep_view());
        }
        res
    }
}

impl PackageGraph {
    /// The first package that builds a binary with the given name: the
    /// package a kernel binary belongs to.
    pub fn kernel_package_for_bin<'a>(&'a self, kernel_bin_name: &str) -> (r: Option<&'a Package>)
        ensures
            match r {
                Some(p) => spec_package_for_bin(self.packages@, kernel_bin_name@) == Some(*p),
                None => spec_package_for_bin(self.packages@, kernel_bin_name@) is None,
            },
    {
        let ghost ps = self.packages@;
        let mut i: usize = 0;
        proof {
            assert(ps.skip(0) =~= ps);
        }
        while i < self.packages.len()
            invariant
                ps == self.packages@,
                i <= self.packages.len(),
                spec_package_for_bin(ps, kernel_bin_name@) == spec_package_for_bin(
                    ps.skip(i as int),
                    kernel_bin_name@,
                ),
            decreases self.packages.len() - i,
        {
            proof {
                assert(ps.skip(i as int)[0] == ps[i as int]);
                assert(ps.skip(i as int).skip(1) =~= ps.skip(i + 1));
            }
            if self.packages[i].has_bin(kernel_bin_name) {
                return Some(&self.packages[i]);
            }
            i += 1;
        }
        proof {
            assert(ps.skip(ps.len() as int) =~= Seq::<Package>::empty());
        }
        None
    }
}

/// Finds the dependency of `kernel_package` whose effective name is
/// `bootloader` and resolves it to its package record by name.
pub fn bootloader_package<'a>(
    project_metadata: &'a PackageGraph,
    kernel_package: &Package,
) -> (r: Result<&'a Package, BootloaderError>)
    ensures
        match r {
            Ok(p) => spec_bootloader_dependency(kernel_package.dependencies@) matches Some(d)
                && spec_package_by_name(project_metadata.packages@, d.name@) == Some(*p),
            Err(e) => match e {
                BootloaderError::BootloaderNotFound => spec_bootloader_dependency(
                    kernel_package.dependencies@,
                ) is None,
                BootloaderError::CargoMetadataIncomplete { key } => spec_bootloader_dependency(
                    kernel_package.dependencies@,
                ) matches Some(d) && spec_package_by_name(project_metadata.packages@, d.name@)
                    is None && key@ == "packages[name = `"@ + d.name@,
                _ => false,
            },
        },
{
    let dep = match find_bootloader_dependency(&kernel_package.dependencies) {
        Some(d) => d,
        None => {
            return Err(BootloaderError::BootloaderNotFound);
        },
    };
    match project_metadata.package_by_name(dep.name.as_str()) {
        Some(p) => Ok(p),
        None => {
            let key = strutil::concat2("packages[name = `", dep.name.as_str());
            Err(BootloaderError::CargoMetadataIncomplete { key })
        },
    }
}

/// The first dependency of `deps` whose effective name is `bootloader`.
fn find_bootloader_dependency<'a>(deps: &'a Vec<Dependency>) -> (r: Option<&'a Dependency>)
    ensures
        match r {
            Some(d) => spec_bootloader_dependency(deps@) == Some(*d),
            None => spec_bootloader_dependency(deps@) is None,
        },
{
    let ghost ds = deps@;
    let mut i: usize = 0;
    proof {
        assert(ds.skip(0) =~= ds);
    }
    while i < deps.len()
        invariant
            ds == deps@,
            i <= deps.len(),
            spec_bootloader_dependency(ds) == spec_bootloader_dependency(ds.skip(i as int)),
        decreases deps.len() - i,
    {
        proof {
            assert(ds.skip(i as int)[0] == ds[i as int]);
            assert(ds.skip(i as int).skip(1) =~= ds.skip(i + 1));
        }
        let effective = match &deps[i].rename {
            Some(r) => r,
            None => &deps[i].name,
        };
        if strutil::str_eq(effective.as_str(), "bootloader") {
            return Some(&deps[i]);
        }
        i += 1;
    }
    proof {
        assert(ds.skip(ds.len() as int) =~= Seq::<Dependency>::empty());
    }
    None
}

} // verus!
