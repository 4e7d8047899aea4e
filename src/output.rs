//! The captured output of `conan install`, and how it becomes build script
//! instructions.

use vstd::prelude::*;
use vstd::slice::slice_subrange;
use vstd::utf8::{decode_utf8, valid_utf8};

use crate::graph::{ConanDependencyGraph, GraphError, graph_directives, tagged};
use crate::instructions::{CargoInstructions, Directive, DirectiveKind};
use crate::json::{parse_json, parsed_json};

verus! {

/// The environment variable that overrides the Conan executable.
pub const CONAN_ENV: &'static str = "CONAN";

/// Relies on `std::str::from_utf8`: it accepts exactly the valid UTF-8
/// byte sequences, and the text it gives decodes them.
#[verifier::external_body]
fn utf8_str(bytes: &[u8]) -> (r: Option<&str>)
    ensures
        r is Some <==> valid_utf8(bytes@),
        r matches Some(t) ==> t@ == decode_utf8(bytes@),
{
    std::str::from_utf8(bytes).ok()
}

/// Relies on `str::chars`: the characters of `s`, in order.
#[verifier::external_body]
fn chars_of(s: &str) -> (r: Vec<char>)
    ensures
        r@ == s@,
{
    s.chars().collect()
}

/// Relies on `String`'s `FromIterator<char>`: the string of the characters `cs`.
#[verifier::external_body]
fn string_of(cs: &[char]) -> (r: String)
    ensures
        r@ == cs@,
{
    cs.iter().collect()
}

/// The pieces of `t` between line feeds; there is always at least one.
pub open spec fn pieces(t: Seq<char>) -> Seq<Seq<char>>
    decreases t.len(),
{
    if t.len() == 0 {
        seq![Seq::empty()]
    } else {
        let p = pieces(t.drop_last());
        if t.last() == '\n' {
            p.push(Seq::empty())
        } else {
            p.update(p.len() - 1, p.last().push(t.last()))
        }
    }
}

/// A line without the carriage return that may end it.
pub open spec fn strip_cr(line: Seq<char>) -> Seq<char> {
    if line.len() > 0 && line.last() == '\r' {
        line.drop_last()
    } else {
        line
    }
}

/// The lines of `t`: the pieces between line feeds, each that a line feed
/// ends without the carriage return before it, and the last piece where it
/// is not empty.
pub open spec fn lines(t: Seq<char>) -> Seq<Seq<char>> {
    let p = pieces(t);
    let ended = p.drop_last().map_values(|l: Seq<char>| strip_cr(l));
    if p.last().len() == 0 {
        ended
    } else {
        ended.push(p.last())
    }
}

/// The marker that starts a warning line.
pub open spec fn warn_marker() -> Seq<char> {
    "WARN: "@
}

/// The message of `line` where it is a warning line: what follows the marker.
pub open spec fn line_warning(line: Seq<char>) -> Seq<Seq<char>> {
    if warn_marker().is_prefix_of(line) {
        seq![line.skip(warn_marker().len() as int)]
    } else {
        Seq::empty()
    }
}

/// The messages of the warning lines among `ls`, in order, without the marker.
pub open spec fn warnings(ls: Seq<Seq<char>>) -> Seq<Seq<char>>
    decreases ls.len(),
{
    if ls.len() == 0 {
        Seq::empty()
    } else {
        warnings(ls.drop_last()) + line_warning(ls.last())
    }
}

/// The instructions that come before those of the graph: the warnings of the
/// error stream, then a re-run trigger on the Conan executable override.
pub open spec fn preamble(stderr: Seq<u8>) -> Seq<Directive> {
    tagged(DirectiveKind::Warning, warnings(lines(decode_utf8(stderr))))
        + seq![Directive { kind: DirectiveKind::RerunIfEnvChanged, value: CONAN_ENV@ }]
}

/// What a `conan install` run left: its exit code, where the system gave
/// one, and what it printed on standard output and standard error.
pub ghost struct OutputView {
    pub code: Option<i32>,
    pub stdout: Seq<u8>,
    pub stderr: Seq<u8>,
}

/// The captured output of a `conan install` run.
#[derive(Debug)]
pub struct ConanOutput {
    code: Option<i32>,
    stdout: Vec<u8>,
    stderr: Vec<u8>,
}

impl View for ConanOutput {
    type V = OutputView;

    closed spec fn view(&self) -> OutputView {
        OutputView { code: self.code, stdout: self.stdout@, stderr: self.stderr@ }
    }
}

/// Whether the run succeeded: it exited with status code 0.
pub open spec fn succeeded(o: OutputView) -> bool {
    o.code == Some(0i32)
}

/// The status code of the run; 0 where the system gave none.
pub open spec fn status_of(o: OutputView) -> i32 {
    match o.code {
        Some(c) => c,
        None => 0,
    }
}

/// Why the output of a `conan install` run gives no instructions.
#[derive(Debug)]
pub enum ConanError {
    /// The run failed: its status code and its error stream.
    Failed { code: i32, stderr: Vec<u8> },
    /// The error stream is not UTF-8 text.
    InvalidStderr,
    /// Standard output is not a JSON document.
    InvalidJson { message: String },
    /// The document is not a dependency graph.
    Graph(GraphError),
}

impl ConanOutput {
    /// The output of a run that exited with `code` (none where the system
    /// gave no code) and printed `stdout` and `stderr`.
    pub fn new(code: Option<i32>, stdout: Vec<u8>, stderr: Vec<u8>) -> (r: ConanOutput)
        ensures
            r@ == (OutputView { code, stdout: stdout@, stderr: stderr@ }),
    {
        ConanOutput { code, stdout, stderr }
    }

    /// Parses the output into build script instructions for Cargo.
    ///
    /// On success the instructions are a re-run trigger on the `CONAN`
    /// variable, the warnings of the error stream, then those of the
    /// dependency graph. A failed run, an error stream that is not UTF-8, a
    /// standard output that is not JSON, or a document that is not a
    /// dependency graph each give their error, and no instructions.
    pub fn parse(self) -> (r: Result<CargoInstructions, ConanError>)
        ensures
            !succeeded(self@) ==> (r matches Err(ConanError::Failed { code, stderr })
                && code == status_of(self@) && stderr@ == self@.stderr),
            succeeded(self@) && !valid_utf8(self@.stderr) ==> r matches Err(ConanError::InvalidStderr),
            succeeded(self@) && valid_utf8(self@.stderr) && parsed_json(self@.stdout) is None
                ==> r matches Err(ConanError::InvalidJson { .. }),
            succeeded(self@) && valid_utf8(self@.stderr) && parsed_json(self@.stdout) is Some ==> match graph_directives(
                parsed_json(self@.stdout)->0,
            ) {
                Ok(ds) => r matches Ok(cargo) && cargo.wf() && cargo@ == preamble(self@.stderr) + ds,
                Err(e) => r matches Err(ConanError::Graph(x)) && x == e,
            },
    {
        if let Err(e) = self.ensure_success() {
            return Err(e);
        }
        let mut cargo = CargoInstructions::new();
        let text = match utf8_str(self.stderr.as_slice()) {
            Some(text) => text,
            None => return Err(ConanError::InvalidStderr),
        };
        let cs = chars_of(text);
        forward_warnings(&mut cargo, &cs);
        cargo.rerun_if_env_changed(CONAN_ENV);
        proof {
            reveal_strlit("CONAN");
            assert(cargo@ =~= preamble(self@.stderr));
        }
        let doc = match parse_json(self.stdout.as_slice()) {
            Ok(doc) => doc,
            Err(message) => return Err(ConanError::InvalidJson { message }),
        };
        let graph = ConanDependencyGraph(doc);
        match graph.traverse(&mut cargo) {
            Ok(()) => Ok(cargo),
            Err(e) => Err(ConanError::Graph(e)),
        }
    }

    /// Checks that the run succeeded; else gives its status code and error stream.
    pub fn ensure_success(&self) -> (r: Result<(), ConanError>)
        ensures
            succeeded(self@) <==> r is Ok,
            !succeeded(self@) ==> (r matches Err(ConanError::Failed { code, stderr })
                && code == status_of(self@) && stderr@ == self@.stderr),
    {
        if self.is_success() {
            return Ok(());
        }
        Err(ConanError::Failed { code: self.status_code(), stderr: self.stderr.clone() })
    }

    /// Whether the run exited with status code 0.
    pub fn is_success(&self) -> (r: bool)
        ensures
            r == succeeded(self@),
    {
        match self.code {
            Some(c) => c == 0,
            None => false,
        }
    }

    /// The status code of the run; 0 where the system gave none.
    pub fn status_code(&self) -> (r: i32)
        ensures
            r == status_of(self@),
    {
        match self.code {
            Some(c) => c,
            None => 0,
        }
    }

    /// What the run printed on standard output: the JSON document.
    pub fn stdout(&self) -> (r: &[u8])
        ensures
            r@ == self@.stdout,
    {
        self.stdout.as_slice()
    }

    /// What the run printed on standard error.
    pub fn stderr(&self) -> (r: &[u8])
        ensures
            r@ == self@.stderr,
    {
        self.stderr.as_slice()
    }
}

/// Adds a warning instruction for the line `cs[from..end]`, where it is a
/// warning line.
fn forward_warning(cargo: &mut CargoInstructions, cs: &Vec<char>, from: usize, end: usize)
    requires
        old(cargo).wf(),
        from <= end <= cs@.len(),
    ensures
        final(cargo).wf(),
        final(cargo)@ == old(cargo)@ + tagged(DirectiveKind::Warning, line_warning(cs@.subrange(from as int, end as int))),
{
    let ghost line = cs@.subrange(from as int, end as int);
    proof {
        reveal_strlit("WARN: ");
    }
    let marked = end - from >= 6 && cs[from] == 'W' && cs[from + 1] == 'A' && cs[from + 2] == 'R'
        && cs[from + 3] == 'N' && cs[from + 4] == ':' && cs[from + 5] == ' ';
    if marked {
        assert(warn_marker().is_prefix_of(line)) by {
            assert(line.take(6) =~= warn_marker());
        }
        let message = string_of(slice_subrange(cs.as_slice(), from + 6, end));
        assert(message@ =~= line.skip(6));
        cargo.warning(message.as_str());
        assert(tagged(DirectiveKind::Warning, line_warning(line)) =~= seq![
            Directive { kind: DirectiveKind::Warning, value: message@ },
        ]);
    } else {
        assert(!warn_marker().is_prefix_of(line)) by {
            if warn_marker().is_prefix_of(line) {
                assert(line[0] == warn_marker()[0]);
                assert(line[1] == warn_marker()[1]);
                assert(line[2] == warn_marker()[2]);
                assert(line[3] == warn_marker()[3]);
                assert(line[4] == warn_marker()[4]);
                assert(line[5] == warn_marker()[5]);
            }
        }
        assert(old(cargo)@ + tagged(DirectiveKind::Warning, line_warning(line)) =~= old(cargo)@);
    }
}

/// Adds a warning instruction for each warning line of `cs`, in order.
fn forward_warnings(cargo: &mut CargoInstructions, cs: &Vec<char>)
    requires
        old(cargo).wf(),
    ensures
        final(cargo).wf(),
        final(cargo)@ == old(cargo)@ + tagged(DirectiveKind::Warning, warnings(lines(cs@))),
{
    let ghost base = cargo@;
    let ghost mut done: Seq<Seq<char>> = Seq::empty();
    let mut start: usize = 0;
    let mut i: usize = 0;
    assert(cs@.take(0) =~= Seq::<char>::empty());
    assert(cs@.subrange(0, 0) =~= Seq::<char>::empty());
    assert(pieces(cs@.take(0)) =~= done.push(cs@.subrange(0, 0)));
    assert(base + tagged(DirectiveKind::Warning, warnings(done.map_values(|l: Seq<char>| strip_cr(l)))) =~= base);
    while i < cs.len()
        invariant
            0 <= start <= i <= cs@.len(),
            pieces(cs@.take(i as int)) == done.push(cs@.subrange(start as int, i as int)),
            cargo.wf(),
            cargo@ == base + tagged(DirectiveKind::Warning, warnings(done.map_values(|l: Seq<char>| strip_cr(l)))),
        decreases cs@.len() - i,
    {
        assert(cs@.take(i + 1).drop_last() =~= cs@.take(i as int));
        assert(cs@.take(i + 1).last() == cs@[i as int]);
        let ghost p = pieces(cs@.take(i as int));
        if cs[i] == '\n' {
            let ghost line = cs@.subrange(start as int, i as int);
            let end = if start < i && cs[i - 1] == '\r' { i - 1 } else { i };
            assert(cs@.subrange(start as int, end as int) =~= strip_cr(line));
            forward_warning(cargo, cs, start, end);
            proof {
                let ws = done.map_values(|l: Seq<char>| strip_cr(l));
                assert(done.push(line).map_values(|l: Seq<char>| strip_cr(l)) =~= ws.push(strip_cr(line)));
                assert(ws.push(strip_cr(line)).drop_last() =~= ws);
                assert(tagged(DirectiveKind::Warning, warnings(ws) + line_warning(strip_cr(line)))
                    =~= tagged(DirectiveKind::Warning, warnings(ws)) + tagged(DirectiveKind::Warning, line_warning(strip_cr(line))));
                done = done.push(line);
            }
            start = i + 1;
            assert(pieces(cs@.take(i + 1)) == p.push(Seq::empty()));
            assert(cs@.subrange(start as int, i + 1) =~= Seq::<char>::empty());
            assert(pieces(cs@.take(i + 1)) =~= done.push(cs@.subrange(start as int, i + 1)));
        } else {
            assert(pieces(cs@.take(i + 1)) == p.update(p.len() - 1, p.last().push(cs@[i as int])));
            assert(cs@.subrange(start as int, i as int).push(cs@[i as int]) =~= cs@.subrange(start as int, i + 1));
            assert(pieces(cs@.take(i + 1)) =~= done.push(cs@.subrange(start as int, i + 1)));
        }
        i = i + 1;
    }
    assert(cs@.take(i as int) =~= cs@);
    let ghost last = cs@.subrange(start as int, i as int);
    if start < cs.len() {
        forward_warning(cargo, cs, start, cs.len());
        proof {
            let ws = done.map_values(|l: Seq<char>| strip_cr(l));
            assert(done.push(last).drop_last() =~= done);
            assert(lines(cs@) =~= ws.push(last));
            assert(ws.push(last).drop_last() =~= ws);
            assert(tagged(DirectiveKind::Warning, warnings(ws) + line_warning(last))
                =~= tagged(DirectiveKind::Warning, warnings(ws)) + tagged(DirectiveKind::Warning, line_warning(last)));
        }
    } else {
        assert(done.push(last).drop_last() =~= done);
        assert(lines(cs@) =~= done.map_values(|l: Seq<char>| strip_cr(l)));
    }
}

} // verus!
