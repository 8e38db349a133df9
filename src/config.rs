//! The storage configuration: filesystem roots, rootless defaults and the
//! choice of storage driver, resolved and validated once, then immutable.

use vstd::prelude::*;

verus! {

/// Whether the first character of `s` is `c`.
fn starts_with_char(s: &str, c: char) -> (r: bool)
    ensures
        r == (s@.len() > 0 && s@[0] == c),
{
    !s.is_empty() && s.get_char(0) == c
}

/// `a` followed by `b`.
fn join(a: &str, b: &str) -> (r: String)
    ensures
        r@ == a@ + b@,
{
    let mut r = String::from_str(a);
    r.append(b);
    r
}

/// The per-user data directory: `xdg_data_home` when given and non-empty,
/// else `.local/share` below a non-empty `home`, else empty.
pub open spec fn user_data_dir_from(xdg_data_home: Option<Seq<char>>, home: Option<Seq<char>>) -> Seq<
    char,
> {
    match xdg_data_home {
        Some(d) if d.len() > 0 => d,
        _ => match home {
            Some(h) if h.len() > 0 => h + "/.local/share"@,
            _ => Seq::empty(),
        },
    }
}

/// Computes the per-user data directory from the values of the
/// `XDG_DATA_HOME` and `HOME` environment variables.
pub fn user_data_dir_of(xdg_data_home: Option<String>, home: Option<String>) -> (r: String)
    ensures
        r@ == user_data_dir_from(view_of(xdg_data_home), view_of(home)),
{
    if let Some(d) = xdg_data_home {
        if !d.as_str().is_empty() {
            return d;
        }
    }
    match home {
        Some(h) => if h.as_str().is_empty() {
            String::new()
        } else {
            proof {
                reveal_strlit("/.local/share");
            }
            join(h.as_str(), "/.local/share")
        },
        None => String::new(),
    }
}

/// Why a configuration was refused.
#[derive(Clone, Copy, Debug, PartialEq, Eq, Structural)]
pub enum ConfigurationError {
    /// The run root or the graph root is empty after defaulting.
    EmptyRoot,
    /// The run root or the graph root is not an absolute path.
    RelativeRoot,
    /// The run root and the graph root are the same path.
    SameRoots,
    /// The driver name resolved to the empty string.
    EmptyDriverName,
    /// The roots were initialised with another driver than the one asked for.
    DriverMismatch,
}

pub open spec fn is_absolute(p: Seq<char>) -> bool {
    p.len() > 0 && p[0] == '/'
}

pub open spec fn view_of(o: Option<String>) -> Option<Seq<char>> {
    match o {
        Some(s) => Some(s@),
        None => None,
    }
}

/// The run root of a privileged manager, unless one is given.
pub open spec fn system_run_root() -> Seq<char> {
    "/run/containers/storage"@
}

/// The graph root of a privileged manager, unless one is given.
pub open spec fn system_graph_root() -> Seq<char> {
    "/var/lib/containers/storage"@
}

/// Where rootless storage lives below the user's data directory.
pub open spec fn rootless_suffix() -> Seq<char> {
    "/containers/storage"@
}

/// Where a rootless run root lives below the rootless storage path.
pub open spec fn rootless_run_suffix() -> Seq<char> {
    "/run"@
}

/// The driver used when none is given and none was recorded.
pub open spec fn default_driver_name() -> Seq<char> {
    "overlay"@
}

/// The rootless storage path: the given one, else a directory below the
/// user's data directory when that is absolute, else empty.
pub open spec fn rootless_path_of(given: Option<Seq<char>>, user_data_dir: Seq<char>) -> Seq<char> {
    match given {
        Some(p) => p,
        None => if is_absolute(user_data_dir) {
            user_data_dir + rootless_suffix()
        } else {
            Seq::empty()
        },
    }
}

/// The run root: the given one, else the system path when privileged, else
/// a directory below the rootless storage path (empty when that is).
pub open spec fn run_root_of(given: Option<Seq<char>>, rootless: Seq<char>, privileged: bool) -> Seq<
    char,
> {
    match given {
        Some(p) => p,
        None => if privileged {
            system_run_root()
        } else if rootless.len() == 0 {
            Seq::empty()
        } else {
            rootless + rootless_run_suffix()
        },
    }
}

/// The graph root: the given one, else the system path when privileged,
/// else the rootless storage path.
pub open spec fn graph_root_of(given: Option<Seq<char>>, rootless: Seq<char>, privileged: bool) -> Seq<
    char,
> {
    match given {
        Some(p) => p,
        None => if privileged {
            system_graph_root()
        } else {
            rootless
        },
    }
}

/// What is wrong with a pair of roots, if anything.
pub open spec fn roots_error(run_root: Seq<char>, graph_root: Seq<char>) -> Option<
    ConfigurationError,
> {
    if run_root.len() == 0 || graph_root.len() == 0 {
        Some(ConfigurationError::EmptyRoot)
    } else if !is_absolute(run_root) || !is_absolute(graph_root) {
        Some(ConfigurationError::RelativeRoot)
    } else if run_root == graph_root {
        Some(ConfigurationError::SameRoots)
    } else {
        None
    }
}

pub open spec fn valid_roots(run_root: Seq<char>, graph_root: Seq<char>) -> bool {
    is_absolute(run_root) && is_absolute(graph_root) && run_root != graph_root
}

/// The driver name chosen from the one asked for and the one recorded at the
/// roots by an earlier initialisation.
pub open spec fn driver_choice(requested: Option<Seq<char>>, recorded: Option<Seq<char>>) -> Result<
    Seq<char>,
    ConfigurationError,
> {
    match requested {
        Some(n) => if n.len() == 0 {
            Err(ConfigurationError::EmptyDriverName)
        } else {
            match recorded {
                Some(p) => if n == p {
                    Ok(n)
                } else {
                    Err(ConfigurationError::DriverMismatch)
                },
                None => Ok(n),
            }
        },
        None => match recorded {
            Some(p) => if p.len() == 0 {
                Err(ConfigurationError::EmptyDriverName)
            } else {
                Ok(p)
            },
            None => Ok(default_driver_name()),
        },
    }
}

/// Chooses the driver name: the one asked for, which must agree with the one
/// recorded at the roots if any; else the recorded one; else the default.
pub fn resolve_driver_name(requested: Option<String>, recorded: Option<String>) -> (r: Result<
    String,
    ConfigurationError,
>)
    ensures
        match driver_choice(view_of(requested), view_of(recorded)) {
            Ok(n) => r is Ok && r->Ok_0@ == n,
            Err(e) => r == Err::<String, ConfigurationError>(e),
        },
{
    match requested {
        Some(n) => {
            if n.as_str().is_empty() {
                return Err(ConfigurationError::EmptyDriverName);
            }
            match recorded {
                Some(p) => if n == p {
                    Ok(n)
                } else {
                    Err(ConfigurationError::DriverMismatch)
                },
                None => Ok(n),
            }
        },
        None => match recorded {
            Some(p) => if p.as_str().is_empty() {
                Err(ConfigurationError::EmptyDriverName)
            } else {
                Ok(p)
            },
            None => {
                proof {
                    reveal_strlit("overlay");
                }
                Ok("overlay".to_owned())
            },
        },
    }
}

/// The three roots as resolved, before a driver is chosen.
pub struct RootsView {
    pub run_root: Seq<char>,
    pub graph_root: Seq<char>,
    pub rootless_storage_path: Seq<char>,
}

/// The roots that an explicit override or a default gives, before validation.
pub open spec fn roots_of(
    run_root: Option<Seq<char>>,
    graph_root: Option<Seq<char>>,
    rootless_storage_path: Option<Seq<char>>,
    privileged: bool,
    user_data_dir: Seq<char>,
) -> RootsView {
    let rootless = rootless_path_of(rootless_storage_path, user_data_dir);
    RootsView {
        run_root: run_root_of(run_root, rootless, privileged),
        graph_root: graph_root_of(graph_root, rootless, privileged),
        rootless_storage_path: rootless,
    }
}

/// A run root and a graph root that are absolute and distinct, with the
/// rootless storage path they were derived from.
pub struct StorageRoots {
    run_root: String,
    graph_root: String,
    rootless_storage_path: String,
}

impl View for StorageRoots {
    type V = RootsView;

    closed spec fn view(&self) -> RootsView {
        RootsView {
            run_root: self.run_root@,
            graph_root: self.graph_root@,
            rootless_storage_path: self.rootless_storage_path@,
        }
    }
}

impl StorageRoots {
    #[verifier::type_invariant]
    spec fn roots_are_valid(&self) -> bool {
        valid_roots(self.run_root@, self.graph_root@)
    }

    /// Resolves the roots. Each path given is taken as it is; a missing one is
    /// defaulted: to the system paths when `privileged`, otherwise below the
    /// rootless storage path, which itself defaults to a directory below
    /// `user_data_dir`. Fails when the run root or the graph root is then
    /// empty, not absolute, or when both are the same path.
    pub fn resolve(
        run_root: Option<String>,
        graph_root: Option<String>,
        rootless_storage_path: Option<String>,
        privileged: bool,
        user_data_dir: &str,
    ) -> (r: Result<StorageRoots, ConfigurationError>)
        ensures
            ({
                let v = roots_of(
                    view_of(run_root),
                    view_of(graph_root),
                    view_of(rootless_storage_path),
                    privileged,
                    user_data_dir@,
                );
                match roots_error(v.run_root, v.graph_root) {
                    Some(e) => r == Err::<StorageRoots, ConfigurationError>(e),
                    None => r is Ok && r->Ok_0@ == v,
                }
            }),
            r is Ok ==> valid_roots(r->Ok_0@.run_root, r->Ok_0@.graph_root),
    {
        let rootless: String = match rootless_storage_path {
            Some(p) => p,
            None => if starts_with_char(user_data_dir, '/') {
                proof {
                    reveal_strlit("/containers/storage");
                }
                join(user_data_dir, "/containers/storage")
            } else {
                String::new()
            },
        };
        let run: String = match run_root {
            Some(p) => p,
            None => if privileged {
                proof {
                    reveal_strlit("/run/containers/storage");
                }
                "/run/containers/storage".to_owned()
            } else if rootless.as_str().is_empty() {
                String::new()
            } else {
                proof {
                    reveal_strlit("/run");
                }
                join(rootless.as_str(), "/run")
            },
        };
        let graph: String = match graph_root {
            Some(p) => p,
            None => if privileged {
                proof {
                    reveal_strlit("/var/lib/containers/storage");
                }
                "/var/lib/containers/storage".to_owned()
            } else {
                rootless.clone()
            },
        };
        if run.as_str().is_empty() || graph.as_str().is_empty() {
            Err(ConfigurationError::EmptyRoot)
        } else if !starts_with_char(run.as_str(), '/') || !starts_with_char(graph.as_str(), '/') {
            Err(ConfigurationError::RelativeRoot)
        } else if run == graph {
            Err(ConfigurationError::SameRoots)
        } else {
            Ok(StorageRoots { run_root: run, graph_root: graph, rootless_storage_path: rootless })
        }
    }

    pub fn run_root(&self) -> (r: &String)
        ensures
            r@ == self@.run_root,
            valid_roots(self@.run_root, self@.graph_root),
    {
        proof {
            use_type_invariant(self);
        }
        &self.run_root
    }

    pub fn graph_root(&self) -> (r: &String)
        ensures
            r@ == self@.graph_root,
            valid_roots(self@.run_root, self@.graph_root),
    {
        proof {
            use_type_invariant(self);
        }
        &self.graph_root
    }

    pub fn rootless_storage_path(&self) -> (r: &String)
        ensures
            r@ == self@.rootless_storage_path,
            valid_roots(self@.run_root, self@.graph_root),
    {
        proof {
            use_type_invariant(self);
        }
        &self.rootless_storage_path
    }
}

/// A resolved configuration.
pub struct StorageDataView {
    pub run_root: Seq<char>,
    pub graph_root: Seq<char>,
    pub rootless_storage_path: Seq<char>,
    pub graph_driver_name: Seq<char>,
    pub graph_driver_options: Seq<String>,
}

/// A configuration is valid when its run root and graph root are absolute
/// and distinct and its driver name is not empty.
pub open spec fn valid_data(v: StorageDataView) -> bool {
    valid_roots(v.run_root, v.graph_root) && v.graph_driver_name.len() > 0
}

/// Everything handed to a storage backend: the roots, the driver name, and
/// the driver options, which are passed through in order and never read.
pub struct ContainerStorageData {
    /// Where run-time information lives, such as active mount points: state
    /// that should be lost when the host reboots.
    run_root: String,
    /// Where the contents of layers, images and containers are stored.
    graph_root: String,
    /// The storage path for rootless users.
    rootless_storage_path: String,
    /// The storage driver. It only needs to be given the first time a store
    /// is initialised for a run root and graph root.
    graph_driver_name: String,
    /// Options for the storage driver, opaque to this library.
    graph_driver_options: Vec<String>,
}

impl View for ContainerStorageData {
    type V = StorageDataView;

    closed spec fn view(&self) -> StorageDataView {
        StorageDataView {
            run_root: self.run_root@,
            graph_root: self.graph_root@,
            rootless_storage_path: self.rootless_storage_path@,
            graph_driver_name: self.graph_driver_name@,
            graph_driver_options: self.graph_driver_options@,
        }
    }
}

impl ContainerStorageData {
    #[verifier::type_invariant]
    spec fn data_is_valid(&self) -> bool {
        valid_data(self@)
    }

    /// Completes `roots` with a driver: `graph_driver_name` when given, which
    /// must agree with `recorded_driver_name`, the driver recorded at the graph
    /// root by an earlier initialisation; else the recorded driver; else the
    /// default one.
    pub fn build(
        roots: StorageRoots,
        graph_driver_name: Option<String>,
        recorded_driver_name: Option<String>,
        graph_driver_options: Vec<String>,
    ) -> (r: Result<ContainerStorageData, ConfigurationError>)
        ensures
            match driver_choice(view_of(graph_driver_name), view_of(recorded_driver_name)) {
                Ok(n) => r is Ok && r->Ok_0@ == (StorageDataView {
                    run_root: roots@.run_root,
                    graph_root: roots@.graph_root,
                    rootless_storage_path: roots@.rootless_storage_path,
                    graph_driver_name: n,
                    graph_driver_options: graph_driver_options@,
                }),
                Err(e) => r == Err::<ContainerStorageData, ConfigurationError>(e),
            },
            r is Ok ==> valid_data(r->Ok_0@),
    {
        proof {
            use_type_invariant(&roots);
            reveal_strlit("overlay");
        }
        let name = match resolve_driver_name(graph_driver_name, recorded_driver_name) {
            Ok(n) => n,
            Err(e) => {
                return Err(e);
            },
        };
        let StorageRoots { run_root, graph_root, rootless_storage_path } = roots;
        Ok(ContainerStorageData {
            run_root,
            graph_root,
            rootless_storage_path,
            graph_driver_name: name,
            graph_driver_options,
        })
    }

    pub fn run_root(&self) -> (r: &String)
        ensures
            r@ == self@.run_root,
            valid_data(self@),
    {
        proof {
            use_type_invariant(self);
        }
        &self.run_root
    }

    pub fn graph_root(&self) -> (r: &String)
        ensures
            r@ == self@.graph_root,
            valid_data(self@),
    {
        proof {
            use_type_invariant(self);
        }
        &self.graph_root
    }

    pub fn rootless_storage_path(&self) -> (r: &String)
        ensures
            r@ == self@.rootless_storage_path,
            valid_data(self@),
    {
        proof {
            use_type_invariant(self);
        }
        &self.rootless_storage_path
    }

    pub fn graph_driver_name(&self) -> (r: &String)
        ensures
            r@ == self@.graph_driver_name,
            valid_data(self@),
    {
        proof {
            use_type_invariant(self);
        }
        &self.graph_driver_name
    }

    pub fn graph_driver_options(&self) -> (r: &Vec<String>)
        ensures
            r@ == self@.graph_driver_options,
            valid_data(self@),
    {
        proof {
            use_type_invariant(self);
        }
        &self.graph_driver_options
    }
}

/// Roots resolve only when both are non-empty: an empty run root or graph
/// root, given or defaulted, is refused with `EmptyRoot`.
pub proof fn lemma_empty_root_refused(
    run_root: Option<Seq<char>>,
    graph_root: Option<Seq<char>>,
    rootless_storage_path: Option<Seq<char>>,
    privileged: bool,
    user_data_dir: Seq<char>,
)
    ensures
        ({
            let v = roots_of(run_root, graph_root, rootless_storage_path, privileged, user_data_dir);
            (v.run_root.len() == 0 || v.graph_root.len() == 0) ==> roots_error(v.run_root, v.graph_root)
                == Some(ConfigurationError::EmptyRoot)
        }),
        run_root == Some(Seq::<char>::empty()) || graph_root == Some(Seq::<char>::empty()) ==> roots_error(
            roots_of(run_root, graph_root, rootless_storage_path, privileged, user_data_dir).run_root,
            roots_of(run_root, graph_root, rootless_storage_path, privileged, user_data_dir).graph_root,
        ) == Some(ConfigurationError::EmptyRoot),
{
}

/// The driver recorded at the roots governs later opens: asking for another
/// non-empty name is refused with `DriverMismatch`, asking for the same one
/// succeeds, and asking for none recovers the recorded one.
pub proof fn lemma_recorded_driver_governs(requested: Seq<char>, recorded: Seq<char>)
    requires
        recorded.len() > 0,
    ensures
        requested.len() > 0 && requested != recorded ==> driver_choice(Some(requested), Some(recorded))
            == Err::<Seq<char>, ConfigurationError>(ConfigurationError::DriverMismatch),
        requested != recorded ==> driver_choice(Some(requested), Some(recorded)) is Err,
        driver_choice(Some(recorded), Some(recorded)) == Ok::<Seq<char>, ConfigurationError>(recorded),
        driver_choice(None, Some(recorded)) == Ok::<Seq<char>, ConfigurationError>(recorded),
{
}

} // verus!
