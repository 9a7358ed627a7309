//! The trace session: what has to be done to start recording, step by step,
//! and the release of the recorder.
//!
//! Starting takes outside work twice: a directory may have to be created, and
//! the recorder has to be built and installed for the whole process. The
//! functions here decide what is to be done next and what each outcome means;
//! the caller does the work and reports how it went.

use crate::error::{
    chain_texts, failure, holds_each_line, lemma_single_line_occurs, occurs_in, renders_chain,
    single_line, with_context, ErrorKind, ExternalError, MapErr,
};
use crate::handle::{lemma_view_of, OpaqueHandle};
use vstd::prelude::*;

verus! {

/// How the trace recorder is to be built.
#[derive(Clone, Debug, PartialEq, Eq)]
pub struct TraceConfig {
    /// Whether the arguments of each event are recorded. Always set.
    pub include_args: bool,
    /// The file that the events are written to; the recorder's own default
    /// where there is none.
    pub output_file: Option<String>,
}

/// The first step of a start: the directory to create, with all its parents,
/// before the recorder is built, and the recorder's configuration.
#[derive(Clone, Debug, PartialEq, Eq)]
pub struct TraceSetup {
    pub create_dir: Option<String>,
    pub config: TraceConfig,
}

/// The text of a string that may be absent.
pub open spec fn text_of(s: Option<String>) -> Option<Seq<char>> {
    match s {
        Some(s) => Some(s@),
        None => None,
    }
}

/// The parent of a path as `std::path::Path::parent` gives it on the platform
/// that the build is made for: the path without its final component, or
/// nothing.
pub uninterp spec fn parent_of(path: Seq<char>) -> Option<Seq<char>>;

/// The text of the failure where the output path has no parent.
pub open spec fn no_parent_text() -> Seq<char> {
    "Not able to find path to the trace output"@
}

/// The outermost text of the failure where the directory of the output file
/// could not be created.
pub open spec fn no_directory_text(dir: Seq<char>) -> Seq<char> {
    "Not able to create the directory of the trace output: "@ + dir
}

/// What the first step of a start comes to, for an output path and the parent
/// of that path. Without a path nothing is created and the recorder writes to
/// its default. With a path the parent is created first and the recorder
/// writes to the path; a path without a parent is refused.
pub open spec fn is_setup_for(
    output_path: Option<Seq<char>>,
    parent: Option<Seq<char>>,
    setup: Result<TraceSetup, ExternalError>,
) -> bool {
    match output_path {
        None => {
            &&& setup is Ok
            &&& setup->Ok_0.create_dir is None
            &&& setup->Ok_0.config.include_args
            &&& setup->Ok_0.config.output_file is None
        },
        Some(path) => match parent {
            Some(dir) => {
                &&& setup is Ok
                &&& text_of(setup->Ok_0.create_dir) == Some(dir)
                &&& setup->Ok_0.config.include_args
                &&& text_of(setup->Ok_0.config.output_file) == Some(path)
            },
            None => {
                &&& setup is Err
                &&& setup->Err_0.kind == ErrorKind::GenericFailure
                &&& renders_chain(setup->Err_0.message@, seq![no_parent_text()])
            },
        },
    }
}

/// Trusted: `std::path::Path::parent` on a path given as text. The parent of
/// the empty path is nothing.
#[verifier::external_body]
fn parent_dir(path: &str) -> (dir: Option<String>)
    ensures
        text_of(dir) == parent_of(path@),
        path@.len() == 0 ==> dir is None,
{
    std::path::Path::new(path).parent().map(|dir| dir.to_string_lossy().into_owned())
}

/// The first step of a start, for an output path whose parent is known.
pub fn trace_setup(output_path: Option<String>, parent: Option<String>) -> (setup: Result<
    TraceSetup,
    ExternalError,
>)
    ensures
        is_setup_for(text_of(output_path), text_of(parent), setup),
        setup is Ok ==> setup->Ok_0.wf(),
        output_path is Some && parent is Some ==> setup->Ok_0.create_dir == parent
            && setup->Ok_0.config.output_file == output_path,
{
    match output_path {
        None => Ok(
            TraceSetup {
                create_dir: None,
                config: TraceConfig { include_args: true, output_file: None },
            },
        ),
        Some(path) => match parent {
            Some(dir) => Ok(
                TraceSetup {
                    create_dir: Some(dir),
                    config: TraceConfig { include_args: true, output_file: Some(path) },
                },
            ),
            None => {
                let refused: Result<TraceSetup, anyhow::Error> = Err(
                    failure("Not able to find path to the trace output"),
                );
                refused.convert_err()
            },
        },
    }
}

/// Begins the start of a trace session: says which directory has to exist
/// and how the recorder is to be built. With an output path, the directory is
/// the path's parent; a path that has none, such as the empty path, is
/// refused.
pub fn init_custom_trace_subscriber(trace_out_file_path: Option<String>) -> (setup: Result<
    TraceSetup,
    ExternalError,
>)
    ensures
        is_setup_for(
            text_of(trace_out_file_path),
            match trace_out_file_path {
                Some(path) => parent_of(path@),
                None => None,
            },
            setup,
        ),
        setup is Ok ==> setup->Ok_0.wf(),
        trace_out_file_path is Some && trace_out_file_path->Some_0@.len() == 0 ==> setup is Err,
{
    let parent = match &trace_out_file_path {
        Some(path) => parent_dir(path.as_str()),
        None => None,
    };
    trace_setup(trace_out_file_path, parent)
}

impl TraceSetup {
    /// A setup always records arguments, and asks for a directory exactly
    /// where the recorder writes to a file of the caller's choice.
    pub open spec fn wf(&self) -> bool {
        &&& self.config.include_args
        &&& self.create_dir is Some <==> self.config.output_file is Some
    }

    /// What the second step of a start comes to. Where a directory was to be
    /// created and could not be, the start fails: the message names the
    /// directory first and the cause under it. In every other case the
    /// recorder is to be built and installed as configured.
    pub open spec fn is_next_for(
        self,
        outcome: Result<(), String>,
        next: Result<TraceConfig, ExternalError>,
    ) -> bool {
        match (self.create_dir, outcome) {
            (Some(dir), Err(cause)) => {
                &&& next is Err
                &&& next->Err_0.kind == ErrorKind::GenericFailure
                &&& renders_chain(next->Err_0.message@, seq![no_directory_text(dir@), cause@])
            },
            _ => next == Ok::<TraceConfig, ExternalError>(self.config),
        }
    }

    /// The second step of a start, once the directory was seen to. `outcome`
    /// says whether it exists now, or why it could not be created.
    pub fn directory_outcome(self, outcome: Result<(), String>) -> (next: Result<
        TraceConfig,
        ExternalError,
    >)
        ensures
            self.is_next_for(outcome, next),
    {
        match (self.create_dir, outcome) {
            (Some(dir), Err(cause)) => {
                let text = "Not able to create the directory of the trace output: ".to_owned().concat(
                    dir.as_str(),
                );
                let err = with_context(failure(cause.as_str()), text.as_str());
                assert(chain_texts(err) =~= seq![no_directory_text(dir@), cause@]);
                let failed: Result<TraceConfig, anyhow::Error> = Err(err);
                failed.convert_err()
            },
            _ => Ok(self.config),
        }
    }
}

/// A start whose directory cannot be created hands out no configuration, and
/// so no handle: it fails with a generic failure whose message begins by
/// naming the directory and holds the cause line by line, whole where the
/// cause is a single line.
pub proof fn lemma_directory_failure_is_reported(
    setup: TraceSetup,
    cause: String,
    next: Result<TraceConfig, ExternalError>,
)
    requires
        setup.create_dir is Some,
        setup.is_next_for(Err(cause), next),
    ensures
        next is Err,
        next->Err_0.kind == ErrorKind::GenericFailure,
        no_directory_text(setup.create_dir->Some_0@).is_prefix_of(next->Err_0.message@),
        occurs_in(setup.create_dir->Some_0@, next->Err_0.message@),
        holds_each_line(cause@, next->Err_0.message@),
        single_line(cause@) ==> occurs_in(cause@, next->Err_0.message@),
{
    let dir = setup.create_dir->Some_0@;
    let message = next->Err_0.message@;
    let levels = seq![no_directory_text(dir), cause@];
    assert(levels[1] == cause@);
    let text = no_directory_text(dir);
    let lead = text.len() - dir.len();
    assert(text =~= message.subrange(0, text.len() as int));
    assert forall|i: int| 0 <= i < dir.len() implies message[lead + i] == dir[i] by {
        assert(text[lead + i] == dir[i]);
        assert(message.subrange(0, text.len() as int)[lead + i] == message[lead + i]);
    }
    assert(message.subrange(lead, lead + dir.len()) =~= dir);
    if single_line(cause@) {
        lemma_single_line_occurs(cause@, message);
    }
}

/// A start without an output path asks for no directory and, whatever is
/// reported of one, goes on to a recorder that keeps the arguments and writes
/// to its default.
pub proof fn lemma_start_without_path_never_fails(
    setup: Result<TraceSetup, ExternalError>,
    outcome: Result<(), String>,
    next: Result<TraceConfig, ExternalError>,
)
    requires
        is_setup_for(None, None, setup),
        setup is Ok ==> setup->Ok_0.is_next_for(outcome, next),
    ensures
        setup is Ok,
        next is Ok,
        next->Ok_0.include_args,
        next->Ok_0.output_file is None,
{
}

/// The outermost text of the failure where the recorder could not be
/// installed for the process.
pub open spec fn not_installed_text() -> Seq<char> {
    "Failed to register tracing subscriber"@
}

/// What the last step of a start comes to. Where the recorder was installed,
/// its guard goes into a fresh handle for the host. Where it was not, because
/// the process has a subscriber already, there is no handle: the start fails,
/// and the message gives the cause under the text above.
pub open spec fn is_handle_for<G>(
    guard: G,
    outcome: Result<(), String>,
    handle: Result<OpaqueHandle<G>, ExternalError>,
) -> bool {
    match outcome {
        Ok(_) => handle == Ok::<OpaqueHandle<G>, ExternalError>(OpaqueHandle::of(Some(guard))),
        Err(cause) => {
            &&& handle is Err
            &&& handle->Err_0.kind == ErrorKind::GenericFailure
            &&& renders_chain(handle->Err_0.message@, seq![not_installed_text(), cause@])
        },
    }
}

/// The last step of a start, once the recorder was built and its
/// installation tried. `outcome` says whether it is installed now, or why it
/// was refused; a guard whose recorder was refused is let go here.
pub fn install_outcome<G>(guard: G, outcome: Result<(), String>) -> (handle: Result<
    OpaqueHandle<G>,
    ExternalError,
>)
    ensures
        is_handle_for(guard, outcome, handle),
        handle is Ok ==> handle->Ok_0@ == Some(guard),
{
    match outcome {
        Ok(_) => {
            proof {
                lemma_view_of(Some(guard));
            }
            Ok(OpaqueHandle::wrap(guard))
        },
        Err(cause) => {
            let err = with_context(failure(cause.as_str()), "Failed to register tracing subscriber");
            assert(chain_texts(err) =~= seq![not_installed_text(), cause@]);
            let failed: Result<OpaqueHandle<G>, anyhow::Error> = Err(err);
            failed.convert_err()
        },
    }
}

/// Ends the trace session that the handle holds: the guard is taken out and
/// let go, which flushes what the recorder has buffered. Says whether a guard
/// was let go; on a handle that was released before, nothing happens.
pub fn teardown_trace_subscriber<G>(guard_handle: &mut OpaqueHandle<G>) -> (flushed: bool)
    ensures
        flushed == (old(guard_handle)@ is Some),
        *final(guard_handle) == old(guard_handle).released(),
        final(guard_handle)@ is None,
{
    guard_handle.take_and_drop()
}

} // verus!
