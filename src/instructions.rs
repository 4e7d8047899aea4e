//! The instruction sink: build script instructions for Cargo, one line each.

use vstd::prelude::*;
use vstd::string::StringExecFns;
use vstd::utf8::encode_utf8;

use crate::json::contains_text;

verus! {

/// The kind of a build script instruction, which fixes the text before its value.
#[derive(Clone, Copy, Debug, PartialEq, Eq, Structural)]
pub enum DirectiveKind {
    /// `cargo:warning=`
    Warning,
    /// `cargo:rerun-if-env-changed=`
    RerunIfEnvChanged,
    /// `cargo:rustc-link-search=`
    LinkSearch,
    /// `cargo:rustc-link-lib=`
    LinkLib,
    /// `cargo:include=`
    Include,
    /// `cargo:rustc-link-arg-bins=`
    LinkArgBins,
    /// `cargo:rustc-cdylib-link-arg=`
    CdylibLinkArg,
}

/// One instruction: its kind and its value.
pub ghost struct Directive {
    pub kind: DirectiveKind,
    pub value: Seq<char>,
}

impl DirectiveKind {
    /// The text that starts a line of this kind, up to and including `=`.
    pub open spec fn prefix(self) -> Seq<char> {
        match self {
            DirectiveKind::Warning => "cargo:warning="@,
            DirectiveKind::RerunIfEnvChanged => "cargo:rerun-if-env-changed="@,
            DirectiveKind::LinkSearch => "cargo:rustc-link-search="@,
            DirectiveKind::LinkLib => "cargo:rustc-link-lib="@,
            DirectiveKind::Include => "cargo:include="@,
            DirectiveKind::LinkArgBins => "cargo:rustc-link-arg-bins="@,
            DirectiveKind::CdylibLinkArg => "cargo:rustc-cdylib-link-arg="@,
        }
    }

    /// The text that starts a line of this kind.
    pub fn prefix_str(&self) -> (r: &'static str)
        ensures
            r@ == self.prefix(),
    {
        match self {
            DirectiveKind::Warning => "cargo:warning=",
            DirectiveKind::RerunIfEnvChanged => "cargo:rerun-if-env-changed=",
            DirectiveKind::LinkSearch => "cargo:rustc-link-search=",
            DirectiveKind::LinkLib => "cargo:rustc-link-lib=",
            DirectiveKind::Include => "cargo:include=",
            DirectiveKind::LinkArgBins => "cargo:rustc-link-arg-bins=",
            DirectiveKind::CdylibLinkArg => "cargo:rustc-cdylib-link-arg=",
        }
    }
}

/// The line that renders `d`, with its line feed.
pub open spec fn line_text(d: Directive) -> Seq<char> {
    d.kind.prefix() + d.value + "\n"@
}

/// The text that renders `ds`, one line each, in order.
pub open spec fn text_of(ds: Seq<Directive>) -> Seq<char>
    decreases ds.len(),
{
    if ds.len() == 0 {
        Seq::empty()
    } else {
        text_of(ds.drop_last()) + line_text(ds.last())
    }
}

/// The directories that the include instructions among `ds` name.
pub open spec fn include_dirs(ds: Seq<Directive>) -> Set<Seq<char>> {
    Set::new(|p: Seq<char>| exists|i: int| 0 <= i < ds.len() && ds[i].kind == DirectiveKind::Include && ds[i].value == p)
}

/// The directories that the include instructions among `ds` name, each once,
/// in the order in which they are first named.
pub open spec fn include_order(ds: Seq<Directive>) -> Seq<Seq<char>>
    decreases ds.len(),
{
    if ds.len() == 0 {
        Seq::empty()
    } else {
        let earlier = include_order(ds.drop_last());
        if ds.last().kind == DirectiveKind::Include && !earlier.contains(ds.last().value) {
            earlier.push(ds.last().value)
        } else {
            earlier
        }
    }
}

/// The views of a sequence of strings.
pub open spec fn texts(v: Seq<String>) -> Seq<Seq<char>> {
    v.map_values(|s: String| s@)
}

/// Build script instructions for Cargo, with the include directories they name.
pub struct CargoInstructions {
    /// The rendered instruction lines.
    out: String,
    /// The include directories, each once, in the order first named.
    includes: Vec<String>,
    /// The instructions, in order.
    log: Ghost<Seq<Directive>>,
}

impl View for CargoInstructions {
    type V = Seq<Directive>;

    closed spec fn view(&self) -> Seq<Directive> {
        self.log@
    }
}

impl CargoInstructions {
    /// The rendered text, the include directories and the instructions agree.
    pub closed spec fn wf(&self) -> bool {
        &&& self.out@ == text_of(self.log@)
        &&& texts(self.includes@) == include_order(self.log@)
        &&& texts(self.includes@).no_duplicates()
        &&& texts(self.includes@).to_set() == include_dirs(self.log@)
    }

    /// An empty list of instructions.
    pub fn new() -> (r: CargoInstructions)
        ensures
            r.wf(),
            r@ == Seq::<Directive>::empty(),
    {
        let out = String::new();
        let includes: Vec<String> = Vec::new();
        let log: Ghost<Seq<Directive>> = Ghost(Seq::empty());
        assert(texts(includes@) =~= Seq::empty());
        assert(texts(includes@) =~= include_order(log@));
        assert(texts(includes@).to_set() =~= include_dirs(log@));
        assert(out@ =~= text_of(log@));
        CargoInstructions { out, includes, log }
    }

    /// The instruction lines as bytes.
    pub fn as_bytes(&self) -> (r: &[u8])
        requires
            self.wf(),
        ensures
            r@ == encode_utf8(text_of(self@)),
    {
        self.out.as_str().as_bytes()
    }

    /// The include directories that the instructions name, each once.
    pub fn include_paths(&self) -> (r: Vec<String>)
        requires
            self.wf(),
        ensures
            texts(r@) == include_order(self@),
            texts(r@).no_duplicates(),
            texts(r@).to_set() == include_dirs(self@),
    {
        let mut r: Vec<String> = Vec::new();
        let mut i: usize = 0;
        while i < self.includes.len()
            invariant
                0 <= i <= self.includes@.len(),
                texts(r@) == texts(self.includes@).take(i as int),
            decreases self.includes@.len() - i,
        {
            r.push(self.includes[i].clone());
            assert(texts(self.includes@).take(i + 1) =~= texts(self.includes@).take(i as int).push(self.includes@[i as int]@));
            assert(texts(r@) =~= texts(self.includes@).take(i + 1));
            i = i + 1;
        }
        assert(texts(self.includes@).take(i as int) =~= texts(self.includes@));
        r
    }

    /// Adds a `cargo:warning={message}` instruction.
    pub fn warning(&mut self, message: &str)
        requires
            old(self).wf(),
        ensures
            final(self).wf(),
            final(self)@ == old(self)@.push(Directive { kind: DirectiveKind::Warning, value: message@ }),
    {
        self.record(DirectiveKind::Warning, message);
    }

    /// Adds a `cargo:rerun-if-env-changed={val}` instruction.
    pub fn rerun_if_env_changed(&mut self, val: &str)
        requires
            old(self).wf(),
        ensures
            final(self).wf(),
            final(self)@ == old(self)@.push(Directive { kind: DirectiveKind::RerunIfEnvChanged, value: val@ }),
    {
        self.record(DirectiveKind::RerunIfEnvChanged, val);
    }

    /// Adds a `cargo:rustc-link-arg-bins={val}` instruction.
    pub fn rustc_link_arg_bins(&mut self, val: &str)
        requires
            old(self).wf(),
        ensures
            final(self).wf(),
            final(self)@ == old(self)@.push(Directive { kind: DirectiveKind::LinkArgBins, value: val@ }),
    {
        self.record(DirectiveKind::LinkArgBins, val);
    }

    /// Adds a `cargo:rustc-cdylib-link-arg={val}` instruction.
    pub fn rustc_cdylib_link_arg(&mut self, val: &str)
        requires
            old(self).wf(),
        ensures
            final(self).wf(),
            final(self)@ == old(self)@.push(Directive { kind: DirectiveKind::CdylibLinkArg, value: val@ }),
    {
        self.record(DirectiveKind::CdylibLinkArg, val);
    }

    /// Adds a `cargo:rustc-link-lib={lib}` instruction.
    pub fn rustc_link_lib(&mut self, lib: &str)
        requires
            old(self).wf(),
        ensures
            final(self).wf(),
            final(self)@ == old(self)@.push(Directive { kind: DirectiveKind::LinkLib, value: lib@ }),
    {
        self.record(DirectiveKind::LinkLib, lib);
    }

    /// Adds a `cargo:rustc-link-search={path}` instruction.
    pub fn rustc_link_search(&mut self, path: &str)
        requires
            old(self).wf(),
        ensures
            final(self).wf(),
            final(self)@ == old(self)@.push(Directive { kind: DirectiveKind::LinkSearch, value: path@ }),
    {
        self.record(DirectiveKind::LinkSearch, path);
    }

    /// Adds a `cargo:include={path}` instruction and records `path` as an include directory.
    pub fn include_dir(&mut self, path: &str)
        requires
            old(self).wf(),
        ensures
            final(self).wf(),
            final(self)@ == old(self)@.push(Directive { kind: DirectiveKind::Include, value: path@ }),
    {
        self.record(DirectiveKind::Include, path);
    }

    /// Appends the line of one instruction, and for an include instruction
    /// records its directory.
    pub(crate) fn record(&mut self, kind: DirectiveKind, value: &str)
        requires
            old(self).wf(),
        ensures
            final(self).wf(),
            final(self)@ == old(self)@.push(Directive { kind, value: value@ }),
    {
        let ghost d = Directive { kind, value: value@ };
        let ghost before = self.log@;
        let ghost dirs = texts(self.includes@);
        self.out.append(kind.prefix_str());
        self.out.append(value);
        self.out.append("\n");
        assert(before.push(d).drop_last() =~= before);
        assert(self.out@ =~= text_of(before.push(d)));
        if kind == DirectiveKind::Include && !contains_text(&self.includes, value) {
            let owned = value.to_owned();
            self.includes.push(owned);
            proof {
                assert(texts(self.includes@) =~= dirs.push(value@));
                dirs.lemma_push_to_set_commute(value@);
            }
        } else {
            proof {
                if kind == DirectiveKind::Include {
                    assert(dirs.to_set().insert(value@) =~= dirs.to_set());
                }
            }
        }
        self.log = Ghost(before.push(d));
        proof {
            assert(texts(self.includes@).to_set() =~= include_dirs(self.log@)) by {
                if kind == DirectiveKind::Include {
                    assert(include_dirs(before.push(d)) =~= include_dirs(before).insert(value@)) by {
                        assert forall|p: Seq<char>| include_dirs(before).insert(value@).contains(p)
                            implies include_dirs(before.push(d)).contains(p) by {
                            if p != value@ {
                                let i = choose|i: int| 0 <= i < before.len() && before[i].kind == DirectiveKind::Include && before[i].value == p;
                                assert(before.push(d)[i] == before[i]);
                            } else {
                                assert(before.push(d)[before.len() as int] == d);
                            }
                        }
                    }
                } else {
                    assert(include_dirs(before.push(d)) =~= include_dirs(before)) by {
                        assert forall|p: Seq<char>| include_dirs(before).contains(p)
                            implies include_dirs(before.push(d)).contains(p) by {
                            let i = choose|i: int| 0 <= i < before.len() && before[i].kind == DirectiveKind::Include && before[i].value == p;
                            assert(before.push(d)[i] == before[i]);
                        }
                    }
                }
            }
        }
    }
}

} // verus!
