use std::borrow::Cow;
use vstd::prelude::*;

verus! {

/// A coarse classification of a failure, independent of its cause's type.
#[derive(Clone, Copy, Debug, PartialEq, Eq, Structural)]
pub enum ErrorKind {
    InvalidData,
    Io,
    Other,
}

/// The textual name of a kind.
pub open spec fn kind_name(kind: ErrorKind) -> Seq<char> {
    match kind {
        ErrorKind::InvalidData => "InvalidData"@,
        ErrorKind::Io => "Io"@,
        ErrorKind::Other => "Other"@,
    }
}

impl ErrorKind {
    /// The kind's name, as it is rendered.
    pub fn name(&self) -> (r: &'static str)
        ensures
            r@ == kind_name(*self),
    {
        match self {
            ErrorKind::InvalidData => "InvalidData",
            ErrorKind::Io => "Io",
            ErrorKind::Other => "Other",
        }
    }

    /// The kind's name as an owned string.
    pub fn to_string(&self) -> (r: String)
        ensures
            r@ == kind_name(*self),
    {
        self.name().to_owned()
    }
}

/// A describable failure taken apart into plain values: its own rendering and, if any, the failure
/// that caused it. Its view is the chain of renderings, starting with its own.
#[derive(Debug)]
pub struct Failure {
    text: String,
    source: Option<Box<Failure>>,
}

impl View for Failure {
    type V = Seq<Seq<char>>;

    open spec fn view(&self) -> Seq<Seq<char>> {
        chain_of(*self)
    }
}

/// The renderings of a failure and of each of its causes, in order.
pub closed spec fn chain_of(f: Failure) -> Seq<Seq<char>>
    decreases f,
{
    match f.source {
        Some(cause) => seq![f.text@] + chain_of(*cause),
        None => seq![f.text@],
    }
}

impl Failure {
    /// A failure with no further cause.
    pub fn new(text: String) -> (r: Failure)
        ensures
            r@ == seq![text@],
    {
        Failure { text, source: None }
    }

    /// A failure caused by `source`.
    pub fn caused_by(text: String, source: Failure) -> (r: Failure)
        ensures
            r@ == seq![text@] + source@,
    {
        Failure { text, source: Some(Box::new(source)) }
    }

    /// The failure's own rendering: the first link of its chain.
    pub fn to_string(&self) -> (r: String)
        ensures
            self@.len() >= 1,
            r@ == self@[0],
    {
        self.text.clone()
    }

    /// The failure that caused this one, if any; the rest of the chain.
    pub fn source(&self) -> (r: Option<&Failure>)
        ensures
            self@.len() >= 1,
            r is None <==> self@.len() == 1,
            r matches Some(cause) ==> cause@ == self@.drop_first(),
    {
        match &self.source {
            Some(cause) => {
                proof {
                    lemma_chain_nonempty(cause);
                    assert(self@.drop_first() =~= cause@);
                }
                Some(&**cause)
            },
            None => None,
        }
    }
}

/// The chain of a failure holds at least its own rendering.
pub proof fn lemma_chain_nonempty(f: &Failure)
    ensures
        f@.len() >= 1,
{
}

/// A message: text that is either fixed or owned.
pub trait IntoMessage {
    /// The text of the message.
    spec fn message_view(&self) -> Seq<char>;

    fn into_message(self) -> (r: Cow<'static, str>)
        ensures
            r@ == self.message_view(),
    ;
}

impl IntoMessage for &'static str {
    open spec fn message_view(&self) -> Seq<char> {
        self@
    }

    fn into_message(self) -> (r: Cow<'static, str>) {
        Cow::Borrowed(self)
    }
}

impl IntoMessage for String {
    open spec fn message_view(&self) -> Seq<char> {
        self@
    }

    fn into_message(self) -> (r: Cow<'static, str>) {
        Cow::Owned(self)
    }
}

impl IntoMessage for Cow<'static, str> {
    open spec fn message_view(&self) -> Seq<char> {
        self@
    }

    fn into_message(self) -> (r: Cow<'static, str>) {
        self
    }
}

/// The capability of a describable failure: it renders as text and may have been caused by
/// another failure.
pub trait Describe {
    /// Whether `chain` is an account of this failure: its own rendering, then that of each cause
    /// in turn.
    spec fn describes(&self, chain: Seq<Seq<char>>) -> bool;

    fn describe(self) -> (r: Failure)
        ensures
            self.describes(r@),
    ;
}

impl Describe for Failure {
    open spec fn describes(&self, chain: Seq<Seq<char>>) -> bool {
        chain == self@
    }

    fn describe(self) -> (r: Failure) {
        self
    }
}

impl<'a> Describe for &'a str {
    open spec fn describes(&self, chain: Seq<Seq<char>>) -> bool {
        chain == seq![self@]
    }

    fn describe(self) -> (r: Failure) {
        Failure::new(self.to_owned())
    }
}

impl Describe for String {
    open spec fn describes(&self, chain: Seq<Seq<char>>) -> bool {
        chain == seq![self@]
    }

    fn describe(self) -> (r: Failure) {
        Failure::new(self)
    }
}

/// What an [`Error`] holds, as plain values: its kind, its message if it has one, and the chain
/// of renderings of its cause if it has one.
pub ghost struct ErrorView {
    pub kind: ErrorKind,
    pub message: Option<Seq<char>>,
    pub cause: Option<Seq<Seq<char>>>,
}

/// The text an error renders as: its message if present, else its cause's own rendering, else
/// the name of its kind.
pub open spec fn rendering(e: ErrorView) -> Seq<char> {
    match e.message {
        Some(m) => m,
        None => match e.cause {
            Some(c) => c[0],
            None => kind_name(e.kind),
        },
    }
}

/// The chain of renderings of an error taken as a failure: its own, then its cause's.
pub open spec fn error_chain(e: ErrorView) -> Seq<Seq<char>> {
    match e.cause {
        Some(c) => seq![rendering(e)] + c,
        None => seq![rendering(e)],
    }
}

/// The outcome of a fallible operation whose failure is an [`Error`].
pub type Result<T> = std::result::Result<T, Error>;

/// A failure with a kind, and optionally a message and a cause.
#[derive(Debug)]
pub struct Error {
    repr: Repr,
}

#[derive(Debug)]
enum Repr {
    Simple(ErrorKind),
    SimpleMessage(ErrorKind, Cow<'static, str>),
    Custom(Custom),
    CustomMessage(Custom, Cow<'static, str>),
}

#[derive(Debug)]
struct Custom {
    kind: ErrorKind,
    error: Box<Failure>,
}

impl View for Error {
    type V = ErrorView;

    closed spec fn view(&self) -> ErrorView {
        match self.repr {
            Repr::Simple(kind) => ErrorView { kind, message: None, cause: None },
            Repr::SimpleMessage(kind, m) => ErrorView { kind, message: Some(m@), cause: None },
            Repr::Custom(c) => ErrorView { kind: c.kind, message: None, cause: Some(c.error@) },
            Repr::CustomMessage(c, m) => ErrorView {
                kind: c.kind,
                message: Some(m@),
                cause: Some(c.error@),
            },
        }
    }
}

impl Error {
    /// An error of kind `kind` caused by `error`, with no message.
    pub fn new<E: Describe>(kind: ErrorKind, error: E) -> (r: Error)
        ensures
            r@.kind == kind,
            r@.message is None,
            r@.cause matches Some(c) && error.describes(c) && rendering(r@) == c[0],
    {
        Error { repr: Repr::Custom(Custom { kind, error: Box::new(error.describe()) }) }
    }

    /// The kind of this error, whatever its shape.
    pub fn kind(&self) -> (r: &ErrorKind)
        ensures
            *r == self@.kind,
    {
        match &self.repr {
            Repr::Simple(kind) => kind,
            Repr::SimpleMessage(kind, _) => kind,
            Repr::Custom(c) => &c.kind,
            Repr::CustomMessage(c, _) => &c.kind,
        }
    }

    /// The message given when this error was made, if one was.
    pub fn message(&self) -> (r: Option<&str>)
        ensures
            match self@.message {
                Some(m) => r matches Some(s) && s@ == m,
                None => r is None,
            },
    {
        match &self.repr {
            Repr::SimpleMessage(_, m) => Some(message_text(m)),
            Repr::CustomMessage(_, m) => Some(message_text(m)),
            _ => None,
        }
    }

    /// An error of kind `kind` with message `message` and no cause.
    pub fn with_message<C: IntoMessage>(kind: ErrorKind, message: C) -> (r: Error)
        ensures
            r@ == (ErrorView { kind, message: Some(message.message_view()), cause: None }),
            rendering(r@) == message.message_view(),
    {
        Error { repr: Repr::SimpleMessage(kind, message.into_message()) }
    }

    /// As [`Error::with_message`], with the message made by calling `message` once, now.
    pub fn with_message_fn<F: FnOnce() -> C, C: IntoMessage>(kind: ErrorKind, message: F) -> (r:
        Error)
        requires
            message.requires(()),
        ensures
            exists|m: C|
                message.ensures((), m) && r@ == (ErrorView {
                    kind,
                    message: Some(m.message_view()),
                    cause: None,
                }),
    {
        Self::with_message(kind, message())
    }

    /// An error of kind `kind` caused by `error`, with message `message`.
    pub fn with_error<E: Describe, C: IntoMessage>(kind: ErrorKind, error: E, message: C) -> (r:
        Error)
        ensures
            r@.kind == kind,
            r@.message == Some(message.message_view()),
            r@.cause matches Some(c) && error.describes(c),
            rendering(r@) == message.message_view(),
    {
        Error {
            repr: Repr::CustomMessage(
                Custom { kind, error: Box::new(error.describe()) },
                message.into_message(),
            ),
        }
    }

    /// As [`Error::with_error`], with the message made by calling `message` once, now.
    pub fn with_error_fn<E: Describe, F: FnOnce() -> C, C: IntoMessage>(
        kind: ErrorKind,
        error: E,
        message: F,
    ) -> (r: Error)
        requires
            message.requires(()),
        ensures
            r@.kind == kind,
            exists|m: C|
                message.ensures((), m) && r@.message == Some(m.message_view()) && rendering(r@)
                    == m.message_view(),
            r@.cause matches Some(c) && error.describes(c),
    {
        Self::with_error(kind, error, message())
    }

    /// The text this error renders as.
    pub fn to_string(&self) -> (r: String)
        ensures
            r@ == rendering(self@),
    {
        match &self.repr {
            Repr::Simple(kind) => kind.to_string(),
            Repr::SimpleMessage(_, m) => message_text(m).to_owned(),
            Repr::Custom(c) => c.error.to_string(),
            Repr::CustomMessage(_, m) => message_text(m).to_owned(),
        }
    }

    /// The failure that caused this error, if any.
    pub fn source(&self) -> (r: Option<&Failure>)
        ensures
            match self@.cause {
                Some(c) => r matches Some(f) && f@ == c,
                None => r is None,
            },
    {
        match &self.repr {
            Repr::Custom(c) => Some(&*c.error),
            Repr::CustomMessage(c, _) => Some(&*c.error),
            _ => None,
        }
    }
}

/// The text of a message, borrowed whether it is fixed or owned.
fn message_text<'a>(m: &'a Cow<'static, str>) -> (r: &'a str)
    ensures
        r@ == m@,
{
    match m {
        Cow::Borrowed(s) => s,
        Cow::Owned(s) => s.as_str(),
    }
}

impl Describe for Error {
    open spec fn describes(&self, chain: Seq<Seq<char>>) -> bool {
        chain == error_chain(self@)
    }

    fn describe(self) -> (r: Failure) {
        let text = self.to_string();
        match self.repr {
            Repr::Custom(c) => Failure::caused_by(text, *c.error),
            Repr::CustomMessage(c, _) => Failure::caused_by(text, *c.error),
            _ => Failure::new(text),
        }
    }
}

impl From<ErrorKind> for Error {
    fn from(kind: ErrorKind) -> (r: Error) {
        Error { repr: Repr::Simple(kind) }
    }
}

impl vstd::std_specs::convert::FromSpecImpl<ErrorKind> for Error {
    open spec fn obeys_from_spec() -> bool {
        true
    }

    closed spec fn from_spec(kind: ErrorKind) -> Error {
        Error { repr: Repr::Simple(kind) }
    }
}

/// An error made from a kind alone has that kind, no message and no cause, and renders as the
/// kind's name.
pub proof fn lemma_from_kind(kind: ErrorKind)
    ensures
        ({
            let e = <Error as vstd::std_specs::convert::FromSpec<ErrorKind>>::from_spec(kind)@;
            &&& e.kind == kind
            &&& e.message is None
            &&& e.cause is None
            &&& rendering(e) == kind_name(kind)
        }),
{
}

/// std::io::Error, the platform's input/output failure, declared so that it can be taken in: it
/// is opaque, and nothing is assumed of what it holds. Its rendering is what its `Display` gives,
/// through vstd's specification of `to_string`.
#[verifier::external_type_specification]
#[verifier::external_body]
pub struct ExIoError(std::io::Error);

impl Describe for std::io::Error {
    /// An input/output failure is described by its own rendering alone; the sources of an error
    /// wrapped inside it are trait objects, which are not taken in.
    open spec fn describes(&self, chain: Seq<Seq<char>>) -> bool {
        &&& chain.len() == 1
        &&& exists|s: String|
            vstd::string::to_string_from_display_ensures::<std::io::Error>(self, s) && s@ == chain[0]
    }

    fn describe(self) -> (r: Failure) {
        let text = self.to_string();
        Failure::new(text)
    }
}

impl Error {
    /// An input/output failure as an error of kind `Io`, with no message.
    pub fn from_io(error: std::io::Error) -> (r: Error)
        ensures
            r@.kind == ErrorKind::Io,
            r@.message is None,
            r@.cause matches Some(c) && error.describes(c) && rendering(r@) == c[0],
    {
        Error::new(ErrorKind::Io, error)
    }
}

impl From<std::io::Error> for Error {
    /// The same conversion as [`Error::from_io`].
    fn from(error: std::io::Error) -> (r: Error)
        ensures
            r@.kind == ErrorKind::Io,
            r@.message is None,
            r@.cause matches Some(c) && error.describes(c) && rendering(r@) == c[0],
    {
        Error::from_io(error)
    }
}

/// The text of an input/output failure is given by a relation, not by a function of the value, so
/// there is no single spec value for the conversion: what it produces is stated by the `ensures`
/// of `from` above instead.
impl vstd::std_specs::convert::FromSpecImpl<std::io::Error> for Error {
    open spec fn obeys_from_spec() -> bool {
        false
    }

    open spec fn from_spec(error: std::io::Error) -> Error {
        arbitrary()
    }
}

/// Adapts a result whose failure is describable into one whose failure is an [`Error`]: a success
/// passes through unchanged, a failure becomes the cause of a new error.
pub trait ResultExt<T>: Sized + crate::private::Sealed {
    /// The success value, if the result is a success.
    spec fn success(&self) -> Option<T>;

    /// Whether the result is a failure that `chain` describes.
    spec fn failed_as(&self, chain: Seq<Seq<char>>) -> bool;

    /// On failure, an error of kind `kind` caused by the failure, with no message.
    fn with_kind(self, kind: ErrorKind) -> (r: Result<T>)
        ensures
            match self.success() {
                Some(v) => r == Ok::<T, Error>(v),
                None => match r {
                    Ok(_) => false,
                    Err(e) => {
                        &&& e@.kind == kind
                        &&& e@.message is None
                        &&& e@.cause matches Some(c) && self.failed_as(c)
                    },
                },
            },
    ;

    /// On failure, an error of kind `kind` caused by the failure, with message `message`.
    fn with_context<C: IntoMessage>(self, kind: ErrorKind, message: C) -> (r: Result<T>)
        ensures
            match self.success() {
                Some(v) => r == Ok::<T, Error>(v),
                None => match r {
                    Ok(_) => false,
                    Err(e) => {
                        &&& e@.kind == kind
                        &&& e@.message == Some(message.message_view())
                        &&& e@.cause matches Some(c) && self.failed_as(c)
                    },
                },
            },
    ;

    /// As [`ResultExt::with_context`], with the message made by calling `f`, which is called
    /// once on failure and never on success.
    fn with_context_fn<F: FnOnce() -> C, C: IntoMessage>(self, kind: ErrorKind, f: F) -> (r:
        Result<T>)
        requires
            self.success() is None ==> f.requires(()),
        ensures
            match self.success() {
                Some(v) => r == Ok::<T, Error>(v),
                None => match r {
                    Ok(_) => false,
                    Err(e) => {
                        &&& e@.kind == kind
                        &&& exists|m: C| f.ensures((), m) && e@.message == Some(m.message_view())
                        &&& e@.cause matches Some(c) && self.failed_as(c)
                    },
                },
            },
    ;
}

impl<T, E: Describe> ResultExt<T> for std::result::Result<T, E> {
    open spec fn success(&self) -> Option<T> {
        match self {
            Ok(v) => Some(*v),
            Err(_) => None,
        }
    }

    open spec fn failed_as(&self, chain: Seq<Seq<char>>) -> bool {
        match self {
            Ok(_) => false,
            Err(e) => e.describes(chain),
        }
    }

    fn with_kind(self, kind: ErrorKind) -> (r: Result<T>) {
        match self {
            Ok(v) => Ok(v),
            Err(e) => Err(Error::new(kind, e)),
        }
    }

    fn with_context<C: IntoMessage>(self, kind: ErrorKind, message: C) -> (r: Result<T>) {
        match self {
            Ok(v) => Ok(v),
            Err(e) => Err(Error::with_error(kind, e, message)),
        }
    }

    fn with_context_fn<F: FnOnce() -> C, C: IntoMessage>(self, kind: ErrorKind, f: F) -> (r:
        Result<T>) {
        match self {
            Ok(v) => Ok(v),
            Err(e) => Err(Error::with_error(kind, e, f())),
        }
    }
}

} // verus!
