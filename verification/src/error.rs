//! The error bridge: every failure leaves the boundary as one kind of error
//! that carries the whole cause chain as text.

use vstd::prelude::*;

verus! {

/// The kind of a failure reported across the boundary.
#[derive(Clone, Copy, Debug, PartialEq, Eq, Structural)]
pub enum ErrorKind {
    /// The only kind there is: the operation failed, the message says why.
    GenericFailure,
}

/// A failure as the host sees it.
#[derive(Clone, Debug, PartialEq, Eq)]
pub struct ExternalError {
    pub kind: ErrorKind,
    pub message: String,
}

impl ExternalError {
    /// A generic failure with the given message.
    pub fn generic(message: String) -> (error: ExternalError)
        ensures
            error.kind == ErrorKind::GenericFailure,
            error.message == message,
    {
        ExternalError { kind: ErrorKind::GenericFailure, message }
    }
}

/// An error of the `anyhow` crate. Verus sees nothing inside it.
#[verifier::external_type_specification]
#[verifier::external_body]
pub struct ExAnyhowError(anyhow::Error);

/// The cause chain of an `anyhow` error: the text of the error itself first,
/// then the text of each cause, outermost to innermost.
pub uninterp spec fn chain_texts(err: anyhow::Error) -> Seq<Seq<char>>;

/// `needle` stands somewhere in `hay`, unbroken.
pub open spec fn occurs_in(needle: Seq<char>, hay: Seq<char>) -> bool {
    exists|at: int|
        0 <= at && at + needle.len() <= hay.len() && #[trigger] hay.subrange(
            at,
            at + needle.len(),
        ) == needle
}

/// `text` holds no line break.
pub open spec fn single_line(text: Seq<char>) -> bool {
    forall|i: int| 0 <= i < text.len() ==> text[i] != '\n'
}

/// Every stretch of `piece` that holds no line break stands in `text`,
/// unbroken. Of a piece that is a single line this says that the whole piece
/// stands in `text`.
pub open spec fn holds_each_line(piece: Seq<char>, text: Seq<char>) -> bool {
    forall|from: int, to: int|
        0 <= from <= to <= piece.len() && single_line(#[trigger] piece.subrange(from, to))
            ==> occurs_in(piece.subrange(from, to), text)
}

/// What is known of the text that a cause chain is rendered to: it begins
/// with the outermost level, whole, and it holds every cause line by line.
/// (A cause that spans several lines is indented after each line break, so
/// only its lines stay unbroken; a captured backtrace may follow the chain.)
pub open spec fn renders_chain(text: Seq<char>, levels: Seq<Seq<char>>) -> bool {
    &&& levels.len() >= 1
    &&& levels[0].is_prefix_of(text)
    &&& forall|i: int| 1 <= i < levels.len() ==> holds_each_line(#[trigger] levels[i], text)
}

/// What a text begins with stands in it, and so does every stretch of it.
pub proof fn lemma_prefix_occurs(needle: Seq<char>, hay: Seq<char>)
    requires
        needle.is_prefix_of(hay),
    ensures
        occurs_in(needle, hay),
        holds_each_line(needle, hay),
{
    let at: int = 0;
    assert(hay.subrange(at, at + needle.len()) == needle);
    assert forall|from: int, to: int| 0 <= from <= to <= needle.len() implies occurs_in(
        #[trigger] needle.subrange(from, to),
        hay,
    ) by {
        let stretch = needle.subrange(from, to);
        assert(hay.subrange(from, from + stretch.len()) =~= stretch);
    }
}

/// A single line that is held line by line is held whole.
pub proof fn lemma_single_line_occurs(piece: Seq<char>, text: Seq<char>)
    requires
        holds_each_line(piece, text),
        single_line(piece),
    ensures
        occurs_in(piece, text),
{
    assert(piece.subrange(0, piece.len() as int) =~= piece);
}

/// How a fallible outcome and its form at the boundary correspond: success
/// passes through untouched, failure becomes a generic failure whose message
/// renders the whole cause chain.
pub open spec fn bridges<T>(
    outcome: Result<T, anyhow::Error>,
    bridged: Result<T, ExternalError>,
) -> bool {
    match outcome {
        Ok(value) => bridged == Ok::<T, ExternalError>(value),
        Err(err) => {
            &&& bridged is Err
            &&& bridged->Err_0.kind == ErrorKind::GenericFailure
            &&& renders_chain(bridged->Err_0.message@, chain_texts(err))
        },
    }
}

/// Trusted: `anyhow::Error`'s `Debug` rendering, as `{:?}` gives it. It writes
/// the error's own text as it is, then under "Caused by:" each cause,
/// indented at its start and after each of its line breaks and otherwise as
/// it is, and last a backtrace where one was captured.
#[verifier::external_body]
fn render_chain(err: &anyhow::Error) -> (text: String)
    ensures
        renders_chain(text@, chain_texts(*err)),
{
    format!("{:?}", err)
}

/// Trusted: `anyhow::Error::msg`. The error it makes has no cause, and its
/// text is the message.
#[verifier::external_body]
pub(crate) fn failure(message: &str) -> (err: anyhow::Error)
    ensures
        chain_texts(err) == seq![message@],
{
    anyhow::Error::msg(message.to_string())
}

/// Trusted: `anyhow::Error::context`. The error it makes has the context as
/// its own text and the given error, with all its causes, as its cause.
#[verifier::external_body]
pub(crate) fn with_context(err: anyhow::Error, context: &str) -> (wrapped: anyhow::Error)
    ensures
        chain_texts(wrapped) == seq![context@] + chain_texts(err),
{
    err.context(context.to_string())
}

/// The boundary's form of one internal error.
pub fn external_error(err: &anyhow::Error) -> (error: ExternalError)
    ensures
        error.kind == ErrorKind::GenericFailure,
        renders_chain(error.message@, chain_texts(*err)),
{
    ExternalError::generic(render_chain(err))
}

/// The capability to leave the boundary: any fallible outcome can be turned
/// into the one the host understands.
pub trait MapErr<T>: Sized {
    /// The outcome that this value stands for.
    spec fn outcome(self) -> Result<T, anyhow::Error>;

    /// Success passes through; failure becomes a generic failure that carries
    /// the rendered cause chain.
    fn convert_err(self) -> (bridged: Result<T, ExternalError>)
        ensures
            bridges(self.outcome(), bridged),
    ;
}

impl<T> MapErr<T> for Result<T, anyhow::Error> {
    open spec fn outcome(self) -> Result<T, anyhow::Error> {
        self
    }

    fn convert_err(self) -> (bridged: Result<T, ExternalError>) {
        match self {
            Ok(value) => Ok(value),
            Err(err) => Err(external_error(&err)),
        }
    }
}

/// No level of the cause chain is lost at the boundary: a failed outcome is
/// bridged to a generic failure whose message begins with the outermost text
/// and holds every level of the chain line by line; a level that is a single
/// line, and the outermost in any case, stands in it whole.
pub proof fn lemma_message_holds_every_level<T>(
    outcome: Result<T, anyhow::Error>,
    bridged: Result<T, ExternalError>,
    level: int,
)
    requires
        bridges(outcome, bridged),
        outcome is Err,
        0 <= level < chain_texts(outcome->Err_0).len(),
    ensures
        bridged is Err,
        bridged->Err_0.kind == ErrorKind::GenericFailure,
        chain_texts(outcome->Err_0)[0].is_prefix_of(bridged->Err_0.message@),
        holds_each_line(chain_texts(outcome->Err_0)[level], bridged->Err_0.message@),
        level == 0 || single_line(chain_texts(outcome->Err_0)[level]) ==> occurs_in(
            chain_texts(outcome->Err_0)[level],
            bridged->Err_0.message@,
        ),
{
    let levels = chain_texts(outcome->Err_0);
    let message = bridged->Err_0.message@;
    lemma_prefix_occurs(levels[0], message);
    if single_line(levels[level]) {
        lemma_single_line_occurs(levels[level], message);
    }
}

} // verus!
