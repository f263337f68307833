use vstd::prelude::*;
use vstd::string::*;

verus! {

/// The name of the native library, as the linker knows it.
pub const LIBRARY_NAME: &'static str = "slang";

/// The environment variable that names a native installation on Windows.
pub const INSTALL_DIR_VAR: &'static str = "SLANG_DIR";

/// The operating system of the build target.
#[derive(Clone, Copy, Debug, PartialEq, Eq, Structural)]
pub enum TargetOs {
    Windows,
    Linux,
    MacOs,
    Other,
}

/// How the native library is made available to the linker.
#[derive(Clone, Copy, Debug, PartialEq, Eq, Structural)]
pub enum LinkStrategy {
    /// Build the vendored sources and link the static archive.
    StaticVendored,
    /// Link an import library found under an installation root.
    DynamicWindowsStyle,
    /// Link the shared object through the system's dynamic linker.
    DynamicUnixStyle,
    /// Link the dynamic library through the system's dynamic linker.
    DynamicMacStyle,
}

/// The kind that a link directive asks for.
#[derive(Clone, Copy, Debug, PartialEq, Eq, Structural)]
pub enum LibKind {
    /// No kind given: the linker's default.
    Unspecified,
    Static,
    Dylib,
}

/// One instruction for the linker.
#[derive(Clone, Debug, PartialEq, Eq)]
pub enum Directive {
    /// Add a native search directory.
    SearchNative(String),
    /// Link a library of the given kind.
    Link(LibKind, String),
}

/// What a directive says, with its text as characters.
pub enum DirectiveModel {
    SearchNative(Seq<char>),
    Link(LibKind, Seq<char>),
}

impl View for Directive {
    type V = DirectiveModel;

    open spec fn view(&self) -> DirectiveModel {
        match self {
            Directive::SearchNative(p) => DirectiveModel::SearchNative(p@),
            Directive::Link(k, n) => DirectiveModel::Link(*k, n@),
        }
    }
}

/// The models of a list of directives, in order.
pub open spec fn models(ds: Seq<Directive>) -> Seq<DirectiveModel> {
    ds.map_values(|d: Directive| d@)
}

/// Why no directives could be produced.
#[derive(Clone, Copy, Debug, PartialEq, Eq, Structural)]
pub enum LinkError {
    /// The installation root that Windows needs was not given.
    MissingInstallDir,
    /// The build orchestrator's output directory is not valid UTF-8.
    NonUtf8BuildRoot,
}

/// The build configuration, read once where the build starts.
#[derive(Clone, Debug)]
pub struct LinkConfig {
    /// Whether the vendored sources are built and linked statically.
    pub static_build: bool,
    pub target_os: TargetOs,
    /// The installation root, where the environment names one.
    pub install_dir: Option<String>,
}

pub open spec fn spec_strategy(static_build: bool, os: TargetOs) -> Option<LinkStrategy> {
    if static_build {
        Some(LinkStrategy::StaticVendored)
    } else {
        match os {
            TargetOs::Windows => Some(LinkStrategy::DynamicWindowsStyle),
            TargetOs::Linux => Some(LinkStrategy::DynamicUnixStyle),
            TargetOs::MacOs => Some(LinkStrategy::DynamicMacStyle),
            TargetOs::Other => None,
        }
    }
}

impl LinkConfig {
    /// The strategy that this configuration selects; none for a dynamic
    /// build on a platform without a linking convention.
    pub fn strategy(&self) -> (r: Option<LinkStrategy>)
        ensures
            r == spec_strategy(self.static_build, self.target_os),
    {
        if self.static_build {
            Some(LinkStrategy::StaticVendored)
        } else {
            match self.target_os {
                TargetOs::Windows => Some(LinkStrategy::DynamicWindowsStyle),
                TargetOs::Linux => Some(LinkStrategy::DynamicUnixStyle),
                TargetOs::MacOs => Some(LinkStrategy::DynamicMacStyle),
                TargetOs::Other => None,
            }
        }
    }
}

pub open spec fn is_separator(c: char) -> bool {
    c == '/' || c == '\\'
}

/// A path with one more component: a separator goes between the two unless
/// the base is empty or already ends in one.
pub open spec fn spec_join(base: Seq<char>, segment: Seq<char>) -> Seq<char> {
    if base.len() == 0 || is_separator(base.last()) {
        base + segment
    } else {
        base + seq!['/'] + segment
    }
}

/// Appends one component to a path.
pub fn join_path(base: &str, segment: &str) -> (r: String)
    ensures
        r@ == spec_join(base@, segment@),
{
    let n = base.unicode_len();
    let mut r = String::from_str(base);
    if n > 0 {
        let c = base.get_char(n - 1);
        if c != '/' && c != '\\' {
            proof {
                reveal_strlit("/");
            }
            r.append("/");
        }
    }
    r.append(segment);
    r
}

/// The models of a directive list, or the error that stood in its place.
pub open spec fn result_models(r: Result<Vec<Directive>, LinkError>) -> Result<
    Seq<DirectiveModel>,
    LinkError,
> {
    match r {
        Ok(ds) => Ok(models(ds@)),
        Err(e) => Err(e),
    }
}

pub open spec fn opt_chars(o: Option<&str>) -> Option<Seq<char>> {
    match o {
        Some(s) => Some(s@),
        None => None,
    }
}

/// Where the build orchestrator leaves the static archive:
/// `<root>/build/<profile>/lib`.
pub open spec fn spec_static_lib_dir(root: Seq<char>, profile: Seq<char>) -> Seq<char> {
    spec_join(spec_join(spec_join(root, "build"@), profile), "lib"@)
}

pub open spec fn spec_static_directives(root: Seq<char>, profile: Seq<char>) -> Seq<
    DirectiveModel,
> {
    seq![
        DirectiveModel::SearchNative(spec_static_lib_dir(root, profile)),
        DirectiveModel::Link(LibKind::Static, LIBRARY_NAME@),
    ]
}

/// Directives for the static archive that the orchestrator built under
/// `build_root` with the profile it reported; `None` stands for a root that
/// is not valid UTF-8.
pub fn static_directives(build_root: Option<&str>, profile: &str) -> (r: Result<
    Vec<Directive>,
    LinkError,
>)
    ensures
        result_models(r) == match build_root {
            Some(root) => Ok(spec_static_directives(root@, profile@)),
            None => Err(LinkError::NonUtf8BuildRoot),
        },
{
    match build_root {
        None => Err(LinkError::NonUtf8BuildRoot),
        Some(root) => {
            let build = join_path(root, "build");
            let with_profile = join_path(build.as_str(), profile);
            let lib_dir = join_path(with_profile.as_str(), "lib");
            let mut ds: Vec<Directive> = Vec::new();
            ds.push(Directive::SearchNative(lib_dir));
            ds.push(Directive::Link(LibKind::Static, String::from_str(LIBRARY_NAME)));
            assert(models(ds@) =~= spec_static_directives(root@, profile@));
            Ok(ds)
        },
    }
}

pub open spec fn spec_windows_directives(dir: Seq<char>) -> Seq<DirectiveModel> {
    seq![
        DirectiveModel::SearchNative(spec_join(dir, "bin"@)),
        DirectiveModel::SearchNative(spec_join(dir, "lib"@)),
        DirectiveModel::Link(LibKind::Static, LIBRARY_NAME@),
    ]
}

pub open spec fn spec_dynamic_directives(os: TargetOs, dir: Option<Seq<char>>) -> Result<
    Seq<DirectiveModel>,
    LinkError,
> {
    match os {
        TargetOs::Windows => match dir {
            Some(d) => Ok(spec_windows_directives(d)),
            None => Err(LinkError::MissingInstallDir),
        },
        TargetOs::Linux => Ok(seq![DirectiveModel::Link(LibKind::Unspecified, LIBRARY_NAME@)]),
        TargetOs::MacOs => Ok(seq![DirectiveModel::Link(LibKind::Dylib, LIBRARY_NAME@)]),
        TargetOs::Other => Ok(Seq::empty()),
    }
}

/// Directives for linking an existing installation. Windows links the
/// import library found under the installation root, which it requires;
/// Linux and macOS rely on the system's dynamic linker.
pub fn dynamic_directives(os: TargetOs, install_dir: Option<&str>) -> (r: Result<
    Vec<Directive>,
    LinkError,
>)
    ensures
        result_models(r) == spec_dynamic_directives(os, opt_chars(install_dir)),
{
    let mut ds: Vec<Directive> = Vec::new();
    match os {
        TargetOs::Windows => {
            match install_dir {
                None => {
                    return Err(LinkError::MissingInstallDir);
                },
                Some(dir) => {
                    ds.push(Directive::SearchNative(join_path(dir, "bin")));
                    ds.push(Directive::SearchNative(join_path(dir, "lib")));
                    ds.push(Directive::Link(LibKind::Static, String::from_str(LIBRARY_NAME)));
                    assert(models(ds@) =~= spec_windows_directives(dir@));
                },
            }
        },
        TargetOs::Linux => {
            ds.push(Directive::Link(LibKind::Unspecified, String::from_str(LIBRARY_NAME)));
            assert(models(ds@) =~= seq![
                DirectiveModel::Link(LibKind::Unspecified, LIBRARY_NAME@),
            ]);
        },
        TargetOs::MacOs => {
            ds.push(Directive::Link(LibKind::Dylib, String::from_str(LIBRARY_NAME)));
            assert(models(ds@) =~= seq![DirectiveModel::Link(LibKind::Dylib, LIBRARY_NAME@)]);
        },
        TargetOs::Other => {
            assert(models(ds@) =~= Seq::empty());
        },
    }
    Ok(ds)
}

pub open spec fn opt_string_chars(o: Option<String>) -> Option<Seq<char>> {
    match o {
        Some(s) => Some(s@),
        None => None,
    }
}

impl LinkConfig {
    /// Directives for a dynamic build under this configuration.
    pub fn dynamic_link_directives(&self) -> (r: Result<Vec<Directive>, LinkError>)
        ensures
            result_models(r) == spec_dynamic_directives(
                self.target_os,
                opt_string_chars(self.install_dir),
            ),
    {
        match &self.install_dir {
            Some(dir) => dynamic_directives(self.target_os, Some(dir.as_str())),
            None => dynamic_directives(self.target_os, None),
        }
    }
}

pub open spec fn kind_prefix(k: LibKind) -> Seq<char> {
    match k {
        LibKind::Unspecified => Seq::empty(),
        LibKind::Static => "static="@,
        LibKind::Dylib => "dylib="@,
    }
}

/// The line by which a build script hands a directive to cargo.
pub open spec fn spec_line(d: DirectiveModel) -> Seq<char> {
    match d {
        DirectiveModel::SearchNative(p) => "cargo:rustc-link-search=native="@ + p,
        DirectiveModel::Link(k, n) => "cargo:rustc-link-lib="@ + kind_prefix(k) + n,
    }
}

impl Directive {
    /// The cargo line for this directive.
    pub fn line(&self) -> (r: String)
        ensures
            r@ == spec_line(self@),
    {
        match self {
            Directive::SearchNative(p) => {
                let mut r = String::from_str("cargo:rustc-link-search=native=");
                r.append(p.as_str());
                r
            },
            Directive::Link(k, n) => {
                let mut r = String::from_str("cargo:rustc-link-lib=");
                match k {
                    LibKind::Unspecified => {
                        proof {
                            assert(r@ + Seq::<char>::empty() =~= r@);
                        }
                    },
                    LibKind::Static => r.append("static="),
                    LibKind::Dylib => r.append("dylib="),
                }
                r.append(n.as_str());
                r
            },
        }
    }
}

/// The cargo lines for a list of directives, in the same order.
pub fn render(ds: &Vec<Directive>) -> (r: Vec<String>)
    ensures
        r@.len() == ds@.len(),
        forall|i: int| 0 <= i < ds@.len() ==> (#[trigger] r@[i])@ == spec_line(ds@[i]@),
{
    let mut r: Vec<String> = Vec::new();
    let mut i: usize = 0;
    while i < ds.len()
        invariant
            i <= ds@.len(),
            r@.len() == i,
            forall|j: int| 0 <= j < i ==> (#[trigger] r@[j])@ == spec_line(ds@[j]@),
        decreases ds@.len() - i,
    {
        r.push(ds[i].line());
        i = i + 1;
    }
    r
}

impl LinkError {
    /// A description of the error for the build log.
    pub fn message(&self) -> (r: String)
        ensures
            r@ == match self {
                LinkError::MissingInstallDir =>
                    "Please provide an environment variable `SLANG_DIR` that points to your slang installation."@,
                LinkError::NonUtf8BuildRoot =>
                    "The native build's output directory is not valid UTF-8."@,
            },
    {
        match self {
            LinkError::MissingInstallDir => String::from_str(
                "Please provide an environment variable `SLANG_DIR` that points to your slang installation.",
            ),
            LinkError::NonUtf8BuildRoot => String::from_str(
                "The native build's output directory is not valid UTF-8.",
            ),
        }
    }
}

/// What the build orchestrator is asked to do for the static strategy.
#[derive(Clone, Debug)]
pub struct BuildRequest {
    /// The vendored source tree.
    pub source_dir: String,
    /// The single target to build, rather than the full install graph.
    pub target: String,
    /// Cache definitions handed to the orchestrator.
    pub defines: Vec<(String, String)>,
}

/// The request for the static strategy: build only the library target of the
/// vendored sources, as a static archive.
pub fn static_build_request() -> (r: BuildRequest)
    ensures
        r.source_dir@ == "vendor/slang"@,
        r.target@ == LIBRARY_NAME@,
        r.defines@.len() == 1,
        r.defines@[0].0@ == "SLANG_LIB_TYPE"@,
        r.defines@[0].1@ == "STATIC"@,
{
    let mut defines: Vec<(String, String)> = Vec::new();
    defines.push((String::from_str("SLANG_LIB_TYPE"), String::from_str("STATIC")));
    BuildRequest {
        source_dir: String::from_str("vendor/slang"),
        target: String::from_str(LIBRARY_NAME),
        defines,
    }
}

/// How many directives of a list add a search directory.
pub open spec fn search_count(ds: Seq<DirectiveModel>) -> nat
    decreases ds.len(),
{
    if ds.len() == 0 {
        0
    } else {
        search_count(ds.drop_last()) + if ds.last() is SearchNative {
            1nat
        } else {
            0nat
        }
    }
}

/// How many directives of a list link a library of the given kind.
pub open spec fn link_count(ds: Seq<DirectiveModel>, kind: LibKind) -> nat
    decreases ds.len(),
{
    if ds.len() == 0 {
        0
    } else {
        link_count(ds.drop_last(), kind) + if ds.last() == DirectiveModel::Link(kind, LIBRARY_NAME@) {
            1nat
        } else {
            0nat
        }
    }
}

/// The static strategy searches exactly `<root>/build/<profile>/lib`, for
/// whatever profile the orchestrator reports, and links the library
/// statically exactly once.
pub proof fn lemma_static_layout(root: Seq<char>, profile: Seq<char>)
    requires
        root.len() > 0,
        !is_separator(root.last()),
        profile.len() > 0,
        !is_separator(profile.last()),
    ensures
        spec_static_directives(root, profile) == seq![
            DirectiveModel::SearchNative(root + "/build/"@ + profile + "/lib"@),
            DirectiveModel::Link(LibKind::Static, LIBRARY_NAME@),
        ],
        search_count(spec_static_directives(root, profile)) == 1,
        link_count(spec_static_directives(root, profile), LibKind::Static) == 1,
{
    reveal_strlit("build");
    reveal_strlit("lib");
    reveal_strlit("/build/");
    reveal_strlit("/lib");
    let b = spec_join(root, "build"@);
    assert(b =~= root + seq!['/'] + "build"@);
    let p = spec_join(b, profile);
    assert(p =~= b + seq!['/'] + profile);
    assert(spec_join(p, "lib"@) =~= root + "/build/"@ + profile + "/lib"@);
    let ds = spec_static_directives(root, profile);
    let d1 = ds.drop_last();
    assert(d1 =~= seq![ds[0]]);
    assert(d1.drop_last() =~= Seq::<DirectiveModel>::empty());
    assert(search_count(d1.drop_last()) == 0);
    assert(link_count(d1.drop_last(), LibKind::Static) == 0);
    assert(search_count(d1) == 1);
    assert(link_count(d1, LibKind::Static) == 0);
    assert(search_count(ds) == 1);
    assert(link_count(ds, LibKind::Static) == 1);
}

/// A dynamic build on Windows fails without an installation root, before any
/// directive; with one, it adds exactly two search directories and links the
/// library exactly once.
pub proof fn lemma_windows_install_dir(dir: Option<Seq<char>>)
    ensures
        dir is None ==> spec_dynamic_directives(TargetOs::Windows, dir) == Err::<
            Seq<DirectiveModel>,
            LinkError,
        >(LinkError::MissingInstallDir),
        dir is Some ==> (spec_dynamic_directives(TargetOs::Windows, dir) matches Ok(ds) && ds.len()
            == 3 && search_count(ds) == 2 && link_count(ds, LibKind::Static) == 1),
{
    if let Some(d) = dir {
        let ds = spec_windows_directives(d);
        let d2 = ds.drop_last();
        let d1 = d2.drop_last();
        assert(d2 =~= seq![ds[0], ds[1]]);
        assert(d1 =~= seq![ds[0]]);
        assert(d1.drop_last() =~= Seq::<DirectiveModel>::empty());
        assert(search_count(d1.drop_last()) == 0);
    assert(link_count(d1.drop_last(), LibKind::Static) == 0);
    assert(search_count(d1) == 1);
        assert(link_count(d1, LibKind::Static) == 0);
        assert(search_count(d2) == 2);
        assert(link_count(d2, LibKind::Static) == 0);
        assert(search_count(ds) == 2);
        assert(link_count(ds, LibKind::Static) == 1);
    }
}

} // verus!
