//! The `conan install` command line builder.

use vstd::prelude::*;
use vstd::string::StringExecFns;

use crate::instructions::texts;
use crate::json::same_text;

verus! {

/// `conan` command verbosity level: `-vquiet`, `-verror`, `-vwarning`,
/// `-vnotice`, `-vstatus`, `-vverbose`, `-vdebug` or `-vtrace`.
#[derive(Clone, Copy, Debug, PartialEq, Eq, Structural, PartialOrd, Ord, Hash)]
pub enum ConanVerbosity {
    /// `-vquiet`
    Quiet,
    /// `-verror`
    Error,
    /// `-vwarning`
    Warning,
    /// `-vnotice`
    Notice,
    /// `-vstatus`
    Status,
    /// `-vverbose`
    Verbose,
    /// `-vdebug`
    Debug,
    /// `-vtrace`
    Trace,
}

impl ConanVerbosity {
    /// The name of the level, as the `-v` option spells it.
    pub open spec fn name(self) -> Seq<char> {
        match self {
            ConanVerbosity::Quiet => "quiet"@,
            ConanVerbosity::Error => "error"@,
            ConanVerbosity::Warning => "warning"@,
            ConanVerbosity::Notice => "notice"@,
            ConanVerbosity::Status => "status"@,
            ConanVerbosity::Verbose => "verbose"@,
            ConanVerbosity::Debug => "debug"@,
            ConanVerbosity::Trace => "trace"@,
        }
    }

    /// The name of the level, as the `-v` option spells it.
    pub fn as_str(&self) -> (r: &'static str)
        ensures
            r@ == self.name(),
    {
        match self {
            ConanVerbosity::Quiet => "quiet",
            ConanVerbosity::Error => "error",
            ConanVerbosity::Warning => "warning",
            ConanVerbosity::Notice => "notice",
            ConanVerbosity::Status => "status",
            ConanVerbosity::Verbose => "verbose",
            ConanVerbosity::Debug => "debug",
            ConanVerbosity::Trace => "trace",
        }
    }
}

impl Default for ConanVerbosity {
    /// `Warning`, Conan's own default.
    fn default() -> (r: ConanVerbosity)
        ensures
            r == ConanVerbosity::Warning,
    {
        ConanVerbosity::Warning
    }
}

/// The view of an optional string.
pub open spec fn opt_text(o: Option<String>) -> Option<Seq<char>> {
    match o {
        Some(s) => Some(s@),
        None => None,
    }
}

/// The view of an optional string slice.
pub open spec fn opt_str(o: Option<&str>) -> Option<Seq<char>> {
    match o {
        Some(s) => Some(s@),
        None => None,
    }
}

/// The settings of a `conan install` command.
pub ghost struct InstallView {
    pub output_folder: Option<Seq<char>>,
    pub recipe_path: Option<Seq<char>>,
    pub profile: Option<Seq<char>>,
    pub build_profile: Option<Seq<char>>,
    pub new_profile: bool,
    pub build: Option<Seq<char>>,
    pub verbosity: ConanVerbosity,
}

/// `conan install` command builder.
pub struct ConanInstall {
    /// Conan generators output directory
    output_folder: Option<String>,
    /// Conan recipe file path
    recipe_path: Option<String>,
    /// Conan host profile name
    profile: Option<String>,
    /// Conan build profile name
    build_profile: Option<String>,
    /// Conan profile auto-detection flag
    new_profile: bool,
    /// Conan build policy
    build: Option<String>,
    /// Conan output verbosity level
    verbosity: ConanVerbosity,
}

impl View for ConanInstall {
    type V = InstallView;

    closed spec fn view(&self) -> InstallView {
        InstallView {
            output_folder: opt_text(self.output_folder),
            recipe_path: opt_text(self.recipe_path),
            profile: opt_text(self.profile),
            build_profile: opt_text(self.build_profile),
            new_profile: self.new_profile,
            build: opt_text(self.build),
            verbosity: self.verbosity,
        }
    }
}

/// The settings of a new command: nothing set, the default verbosity.
pub open spec fn default_install() -> InstallView {
    InstallView {
        output_folder: None,
        recipe_path: None,
        profile: None,
        build_profile: None,
        new_profile: false,
        build: None,
        verbosity: ConanVerbosity::Warning,
    }
}

impl Default for ConanInstall {
    /// The same as `ConanInstall::new()`.
    fn default() -> (r: ConanInstall)
        ensures
            r@ == default_install(),
    {
        ConanInstall::new()
    }
}

/// `flag` and `value`, where there is a value.
pub open spec fn flag_pair(flag: Seq<char>, value: Option<Seq<char>>) -> Seq<Seq<char>> {
    match value {
        Some(v) => seq![flag, v],
        None => Seq::empty(),
    }
}

/// The `build_type` setting for the Cargo profile `cargo_profile`: `Debug`
/// for `debug`, `Release` for `release`, none for any other.
pub open spec fn build_type_args(cargo_profile: Option<Seq<char>>) -> Seq<Seq<char>> {
    if cargo_profile == Some("debug"@) {
        seq!["-s"@, "build_type=Debug"@]
    } else if cargo_profile == Some("release"@) {
        seq!["-s"@, "build_type=Release"@]
    } else {
        Seq::empty()
    }
}

/// The arguments of `conan install` for the settings `v`, with `out_dir` as
/// the output folder where none is set, and the `build_type` setting for the
/// Cargo profile `cargo_profile`; none where there is no output folder at all.
pub open spec fn install_args(v: InstallView, out_dir: Option<Seq<char>>, cargo_profile: Option<Seq<char>>) -> Option<Seq<Seq<char>>> {
    let recipe = match v.recipe_path {
        Some(p) => p,
        None => "."@,
    };
    let folder = match v.output_folder {
        Some(f) => Some(f),
        None => out_dir,
    };
    match folder {
        Some(folder) => Some(
            seq!["install"@, recipe, "-v"@ + v.verbosity.name(), "--format"@, "json"@, "--output-folder"@, folder]
                + flag_pair("--profile:host"@, v.profile)
                + flag_pair("--profile:build"@, v.build_profile)
                + flag_pair("--build"@, v.build)
                + build_type_args(cargo_profile),
        ),
        None => None,
    }
}

/// The arguments of `conan profile detect` for `profile`, or for the default
/// profile where there is none.
pub open spec fn detect_args(profile: Option<Seq<char>>) -> Seq<Seq<char>> {
    seq!["profile"@, "detect"@, "--exist-ok"@] + flag_pair("--name"@, profile)
}

/// The profiles that `conan profile detect` runs for before `conan install`:
/// none unless detection is on; else the host profile, and the build profile
/// where it differs.
pub open spec fn profiles_to_detect(v: InstallView) -> Seq<Option<Seq<char>>> {
    if !v.new_profile {
        Seq::empty()
    } else if v.build_profile != v.profile {
        seq![v.profile, v.build_profile]
    } else {
        seq![v.profile]
    }
}

/// Appends `flag` and `value` to `args`, where there is a value.
fn push_flag(args: &mut Vec<String>, flag: &str, value: &Option<String>)
    ensures
        texts(final(args)@) == texts(old(args)@) + flag_pair(flag@, opt_text(*value)),
{
    if let Some(v) = value {
        args.push(flag.to_owned());
        args.push(v.clone());
        assert(texts(final(args)@) =~= texts(old(args)@) + flag_pair(flag@, opt_text(*value)));
    } else {
        assert(texts(old(args)@) + flag_pair(flag@, opt_text(*value)) =~= texts(old(args)@));
    }
}

/// The `-s build_type=...` arguments for the Cargo profile `cargo_profile`.
pub fn build_type_settings(cargo_profile: Option<&str>) -> (r: Vec<String>)
    ensures
        texts(r@) == build_type_args(opt_str(cargo_profile)),
{
    let mut r: Vec<String> = Vec::new();
    if let Some(p) = cargo_profile {
        if same_text(p, "debug") {
            r.push("-s".to_owned());
            r.push("build_type=Debug".to_owned());
        } else if same_text(p, "release") {
            r.push("-s".to_owned());
            r.push("build_type=Release".to_owned());
        }
    }
    assert(texts(r@) =~= build_type_args(opt_str(cargo_profile)));
    r
}

/// The arguments of `conan profile detect --exist-ok` for `profile`, or for
/// the default profile where there is none.
pub fn profile_detect_args(profile: Option<&str>) -> (r: Vec<String>)
    ensures
        texts(r@) == detect_args(opt_str(profile)),
{
    let mut r: Vec<String> = Vec::new();
    r.push("profile".to_owned());
    r.push("detect".to_owned());
    r.push("--exist-ok".to_owned());
    if let Some(p) = profile {
        r.push("--name".to_owned());
        r.push(p.to_owned());
    }
    assert(texts(r@) =~= detect_args(opt_str(profile)));
    r
}

/// Whether two optional strings are equal.
fn same_opt(a: &Option<String>, b: &Option<String>) -> (r: bool)
    ensures
        r == (opt_text(*a) == opt_text(*b)),
{
    match (a, b) {
        (Some(x), Some(y)) => same_text(x.as_str(), y.as_str()),
        (None, None) => true,
        _ => false,
    }
}

impl ConanInstall {
    /// The profiles to run `conan profile detect --exist-ok` for, in order,
    /// before `conan install`; `None` stands for the default profile.
    pub fn profiles_to_detect(&self) -> (r: Vec<Option<String>>)
        ensures
            r@.map_values(|o: Option<String>| opt_text(o)) == profiles_to_detect(self@),
    {
        let mut r: Vec<Option<String>> = Vec::new();
        if self.new_profile {
            r.push(self.profile.clone());
            if !same_opt(&self.build_profile, &self.profile) {
                r.push(self.build_profile.clone());
            }
        }
        assert(r@.map_values(|o: Option<String>| opt_text(o)) =~= profiles_to_detect(self@));
        r
    }

    /// The arguments of the `conan install` command, with `out_dir` as the
    /// output folder where none is set, and the `build_type` setting for
    /// the Cargo profile `cargo_profile`; `None` where there is no output
    /// folder at all.
    pub fn install_args(&self, out_dir: Option<&str>, cargo_profile: Option<&str>) -> (r: Option<Vec<String>>)
        ensures
            r is Some <==> install_args(self@, opt_str(out_dir), opt_str(cargo_profile)) is Some,
            r matches Some(args) ==> Some(texts(args@)) == install_args(self@, opt_str(out_dir), opt_str(cargo_profile)),
    {
        let folder = match &self.output_folder {
            Some(f) => f.clone(),
            None => match out_dir {
                Some(d) => d.to_owned(),
                None => return None,
            },
        };
        let mut r: Vec<String> = Vec::new();
        r.push("install".to_owned());
        match &self.recipe_path {
            Some(p) => r.push(p.clone()),
            None => r.push(".".to_owned()),
        }
        r.push(String::from_str("-v").concat(self.verbosity.as_str()));
        r.push("--format".to_owned());
        r.push("json".to_owned());
        r.push("--output-folder".to_owned());
        r.push(folder);
        let ghost head = texts(r@);
        push_flag(&mut r, "--profile:host", &self.profile);
        push_flag(&mut r, "--profile:build", &self.build_profile);
        push_flag(&mut r, "--build", &self.build);
        let settings = build_type_settings(cargo_profile);
        let mut i: usize = 0;
        let ghost before = texts(r@);
        while i < settings.len()
            invariant
                0 <= i <= settings@.len(),
                texts(r@) == before + texts(settings@).take(i as int),
            decreases settings@.len() - i,
        {
            let ghost prev = r@;
            r.push(settings[i].clone());
            assert(texts(r@) =~= texts(prev).push(settings@[i as int]@));
            assert(texts(settings@).take(i + 1) =~= texts(settings@).take(i as int).push(settings@[i as int]@));
            assert(texts(r@) =~= before + texts(settings@).take(i + 1));
            i = i + 1;
        }
        assert(texts(settings@).take(i as int) =~= texts(settings@));
        assert(Some(texts(r@)) =~= install_args(self@, opt_str(out_dir), opt_str(cargo_profile)));
        Some(r)
    }

    /// Creates a new `conan install` command with the default recipe path (`.`).
    pub fn new() -> (r: ConanInstall)
        ensures
            r@ == default_install(),
    {
        ConanInstall {
            output_folder: None,
            recipe_path: None,
            profile: None,
            build_profile: None,
            new_profile: false,
            build: None,
            verbosity: ConanVerbosity::Warning,
        }
    }

    /// Creates a new `conan install` command with the given recipe path.
    pub fn with_recipe(recipe_path: &str) -> (r: ConanInstall)
        ensures
            r@ == (InstallView { recipe_path: Some(recipe_path@), ..default_install() }),
    {
        let mut r = ConanInstall::new();
        r.recipe_path = Some(recipe_path.to_owned());
        r
    }

    /// Sets the Conan generator output folder (`--output-folder`).
    pub fn output_folder(&mut self, output_folder: &str) -> (r: &mut ConanInstall)
        ensures
            (*r)@ == (InstallView { output_folder: Some(output_folder@), ..old(self)@ }),
            *final(self) == *final(r),
    {
        self.output_folder = Some(output_folder.to_owned());
        self
    }

    /// Sets the Conan host profile (`--profile:host`).
    pub fn profile(&mut self, profile: &str) -> (r: &mut ConanInstall)
        ensures
            (*r)@ == (InstallView { profile: Some(profile@), ..old(self)@ }),
            *final(self) == *final(r),
    {
        self.profile = Some(profile.to_owned());
        self
    }

    /// Sets the Conan host profile (`--profile:host`); the same as `profile`.
    pub fn host_profile(&mut self, profile: &str) -> (r: &mut ConanInstall)
        ensures
            (*r)@ == (InstallView { profile: Some(profile@), ..old(self)@ }),
            *final(self) == *final(r),
    {
        self.profile(profile)
    }

    /// Sets the Conan build profile (`--profile:build`).
    pub fn build_profile(&mut self, profile: &str) -> (r: &mut ConanInstall)
        ensures
            (*r)@ == (InstallView { build_profile: Some(profile@), ..old(self)@ }),
            *final(self) == *final(r),
    {
        self.build_profile = Some(profile.to_owned());
        self
    }

    /// Schedules `conan profile detect --exist-ok` before `conan install`,
    /// to create the profiles to use where they do not exist.
    pub fn detect_profile(&mut self) -> (r: &mut ConanInstall)
        ensures
            (*r)@ == (InstallView { new_profile: true, ..old(self)@ }),
            *final(self) == *final(r),
    {
        self.new_profile = true;
        self
    }

    /// Sets the Conan dependency build policy (`--build`).
    pub fn build(&mut self, build: &str) -> (r: &mut ConanInstall)
        ensures
            (*r)@ == (InstallView { build: Some(build@), ..old(self)@ }),
            *final(self) == *final(r),
    {
        self.build = Some(build.to_owned());
        self
    }

    /// Sets the Conan command verbosity level (`-v`).
    pub fn verbosity(&mut self, verbosity: ConanVerbosity) -> (r: &mut ConanInstall)
        ensures
            (*r)@ == (InstallView { verbosity, ..old(self)@ }),
            *final(self) == *final(r),
    {
        self.verbosity = verbosity;
        self
    }
}

} // verus!
