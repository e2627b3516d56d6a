//! One connection: how it is served, and how its failure is reported.
use crate::log::{Level, LogLine};
use vstd::prelude::*;

verus! {

/// What a connection waits for.
#[derive(Clone, Copy, Debug, PartialEq, Eq)]
pub enum ConnectionPhase {
    /// The TLS handshake.
    Handshaking,
    /// The end of its requests, which are encrypted or not.
    Serving { encrypted: bool },
    /// The report of the handshake that failed.
    Refusing,
    /// The report of the error that ended it.
    Reporting,
    /// Nothing: it is over.
    Closed,
}

/// What is to be done for a connection.
#[derive(Clone, Copy, Debug, PartialEq, Eq)]
pub enum ConnectionAction {
    /// Perform the TLS handshake.
    Handshake,
    /// Serve its requests, encrypted or not, under the watch that lets open
    /// connections come to their end when the server shuts down.
    ServeWatched { encrypted: bool },
    /// Report that the handshake failed.
    ReportHandshake,
    /// Report the error that ended it.
    Report,
    /// Nothing more: give back its share of the watch.
    ReleaseWatch,
}

/// A connection, as far as it has come.
#[derive(Clone, Copy, Debug, PartialEq, Eq)]
pub struct Connection {
    pub phase: ConnectionPhase,
}

impl Connection {
    pub open spec fn spec_begin(tls: bool) -> Connection {
        Connection {
            phase: if tls {
                ConnectionPhase::Handshaking
            } else {
                ConnectionPhase::Serving { encrypted: false }
            },
        }
    }

    /// The connection after what it waited for succeeded or failed.
    pub open spec fn spec_step(self, ok: bool) -> Connection {
        Connection {
            phase: match self.phase {
                ConnectionPhase::Handshaking if ok => ConnectionPhase::Serving { encrypted: true },
                ConnectionPhase::Handshaking => ConnectionPhase::Refusing,
                ConnectionPhase::Serving { .. } if !ok => ConnectionPhase::Reporting,
                _ => ConnectionPhase::Closed,
            },
        }
    }

    /// What is to be done.
    pub open spec fn spec_action(self) -> ConnectionAction {
        match self.phase {
            ConnectionPhase::Handshaking => ConnectionAction::Handshake,
            ConnectionPhase::Serving { encrypted } => ConnectionAction::ServeWatched { encrypted },
            ConnectionPhase::Refusing => ConnectionAction::ReportHandshake,
            ConnectionPhase::Reporting => ConnectionAction::Report,
            ConnectionPhase::Closed => ConnectionAction::ReleaseWatch,
        }
    }

    /// What is to be done for the connection.
    pub fn action(&self) -> (r: ConnectionAction)
        ensures
            r == self.spec_action(),
    {
        match self.phase {
            ConnectionPhase::Handshaking => ConnectionAction::Handshake,
            ConnectionPhase::Serving { encrypted } => ConnectionAction::ServeWatched { encrypted },
            ConnectionPhase::Refusing => ConnectionAction::ReportHandshake,
            ConnectionPhase::Reporting => ConnectionAction::Report,
            ConnectionPhase::Closed => ConnectionAction::ReleaseWatch,
        }
    }

    /// Takes whether what the connection waited for succeeded.
    pub fn step(&mut self, ok: bool)
        ensures
            *final(self) == old(self).spec_step(ok),
    {
        self.phase = match self.phase {
            ConnectionPhase::Handshaking => if ok {
                ConnectionPhase::Serving { encrypted: true }
            } else {
                ConnectionPhase::Refusing
            },
            ConnectionPhase::Serving { .. } => if ok {
                ConnectionPhase::Closed
            } else {
                ConnectionPhase::Reporting
            },
            ConnectionPhase::Refusing => ConnectionPhase::Closed,
            ConnectionPhase::Reporting => ConnectionPhase::Closed,
            ConnectionPhase::Closed => ConnectionPhase::Closed,
        };
    }
}

/// Begins to process an incoming connection: where TLS is configured, with the
/// handshake; where it is not, with its requests.
pub fn process_connection(tls: bool) -> (r: Connection)
    ensures
        r == Connection::spec_begin(tls),
{
    Connection {
        phase: if tls {
            ConnectionPhase::Handshaking
        } else {
            ConnectionPhase::Serving { encrypted: false }
        },
    }
}

/// A connection after a sequence of outcomes.
pub open spec fn after_outcomes(connection: Connection, outcomes: Seq<bool>) -> Connection
    decreases outcomes.len(),
{
    if outcomes.len() == 0 {
        connection
    } else {
        after_outcomes(connection, outcomes.drop_last()).spec_step(outcomes.last())
    }
}

/// Where TLS is configured, no request is served unencrypted, nor any after a
/// handshake that failed, which is reported as such and as nothing else; where it
/// is not, there is no handshake.
pub proof fn law_tls_is_never_bypassed(tls: bool, outcomes: Seq<bool>)
    ensures
        after_outcomes(Connection::spec_begin(tls), outcomes).phase matches
            ConnectionPhase::Serving { encrypted } ==> encrypted == tls,
        after_outcomes(Connection::spec_begin(tls), outcomes).phase is Serving && tls
            ==> outcomes.len() == 1 && outcomes[0],
        after_outcomes(Connection::spec_begin(tls), outcomes).phase is Serving && !tls
            ==> outcomes.len() == 0,
        tls && outcomes.len() == 1 && !outcomes[0] ==> after_outcomes(
            Connection::spec_begin(tls),
            outcomes,
        ).phase is Refusing,
        tls && outcomes.len() > 1 && !outcomes[0] ==> after_outcomes(
            Connection::spec_begin(tls),
            outcomes,
        ).phase is Closed,
        after_outcomes(Connection::spec_begin(tls), outcomes).phase is Refusing ==> tls
            && outcomes.len() == 1 && !outcomes[0],
        !tls ==> !(after_outcomes(Connection::spec_begin(tls), outcomes).phase is Handshaking),
{
    lemma_phases(tls, outcomes);
}

proof fn lemma_phases(tls: bool, outcomes: Seq<bool>)
    ensures
        ({
            let phase = after_outcomes(Connection::spec_begin(tls), outcomes).phase;
            let first = if tls { 1int } else { 0int };
            &&& phase is Handshaking <==> tls && outcomes.len() == 0
            &&& phase is Serving <==> outcomes.len() == first && (tls ==> outcomes[0])
            &&& phase matches ConnectionPhase::Serving { encrypted } ==> encrypted == tls
            &&& phase is Refusing <==> tls && outcomes.len() == 1 && !outcomes[0]
            &&& phase is Reporting ==> outcomes.len() == first + 1 && (tls ==> outcomes[0])
        }),
    decreases outcomes.len(),
{
    if outcomes.len() > 0 {
        lemma_phases(tls, outcomes.drop_last());
    }
}

/// Every connection is over after at most three outcomes.
pub proof fn law_connection_ends(tls: bool, outcomes: Seq<bool>)
    requires
        outcomes.len() >= 3,
    ensures
        after_outcomes(Connection::spec_begin(tls), outcomes).phase is Closed,
{
    lemma_phases(tls, outcomes);
}

/// What was done for a connection, up to the last outcome.
pub open spec fn actions_done(tls: bool, outcomes: Seq<bool>) -> Seq<ConnectionAction> {
    Seq::new(
        outcomes.len(),
        |i: int| after_outcomes(Connection::spec_begin(tls), outcomes.take(i)).spec_action(),
    )
}

/// A connection is served only under the watch and at most once, and its share of
/// the watch is given back when it is over and not before: not as long as it is
/// in its handshake, served or reported, whatever came of it.
pub proof fn law_connection_is_watched(tls: bool, outcomes: Seq<bool>, i: int, j: int)
    requires
        0 <= i < j < outcomes.len(),
    ensures
        !(actions_done(tls, outcomes)[i] is ServeWatched && actions_done(
            tls,
            outcomes,
        )[j] is ServeWatched),
        after_outcomes(Connection::spec_begin(tls), outcomes.take(i)).phase is Serving
            <==> actions_done(tls, outcomes)[i] is ServeWatched,
        after_outcomes(Connection::spec_begin(tls), outcomes.take(i)).phase is Closed
            <==> actions_done(tls, outcomes)[i] is ReleaseWatch,
        actions_done(tls, outcomes)[i] is ReleaseWatch ==> actions_done(
            tls,
            outcomes,
        )[j] is ReleaseWatch,
{
    lemma_phases(tls, outcomes.take(i));
    lemma_phases(tls, outcomes.take(j));
    lemma_stays_closed(tls, outcomes, i, j);
}

/// A connection that is over stays over.
proof fn lemma_stays_closed(tls: bool, outcomes: Seq<bool>, i: int, j: int)
    requires
        0 <= i <= j <= outcomes.len(),
    ensures
        after_outcomes(Connection::spec_begin(tls), outcomes.take(i)).phase is Closed
            ==> after_outcomes(Connection::spec_begin(tls), outcomes.take(j)).phase is Closed,
    decreases j - i,
{
    if i < j {
        lemma_stays_closed(tls, outcomes, i, j - 1);
        assert(outcomes.take(j).drop_last() == outcomes.take(j - 1));
    }
}

/// An error of the HTTP implementation, `hyper::Error`.
#[verifier::external_type_specification]
#[verifier::external_body]
pub struct ExHyperError(hyper::Error);

/// What `hyper::Error::is_incomplete_message` says of an error.
pub uninterp spec fn is_incomplete_message(error: hyper::Error) -> bool;

/// What `hyper::Error::is_closed` says of an error.
pub uninterp spec fn is_closed(error: hyper::Error) -> bool;

/// What `hyper::Error::is_parse` says of an error.
pub uninterp spec fn is_parse(error: hyper::Error) -> bool;

/// What `hyper::Error::is_user` says of an error.
pub uninterp spec fn is_user(error: hyper::Error) -> bool;

/// What `hyper::Error::is_canceled` says of an error.
pub uninterp spec fn is_canceled(error: hyper::Error) -> bool;

/// The kind of an error as the `Debug` text of `hyper::Error` shows it.
pub uninterp spec fn shown_kind(error: hyper::Error) -> Seq<char>;

/// How `hyper::Error` displays an error.
pub uninterp spec fn displayed(error: hyper::Error) -> Seq<char>;

/// `hyper::Error::is_incomplete_message` depends on the error alone.
pub assume_specification[ hyper::Error::is_incomplete_message ](error: &hyper::Error) -> (r: bool)
    ensures
        r == is_incomplete_message(*error),
;

/// `hyper::Error::is_closed` depends on the error alone.
pub assume_specification[ hyper::Error::is_closed ](error: &hyper::Error) -> (r: bool)
    ensures
        r == is_closed(*error),
;

/// `hyper::Error::is_parse` depends on the error alone.
pub assume_specification[ hyper::Error::is_parse ](error: &hyper::Error) -> (r: bool)
    ensures
        r == is_parse(*error),
;

/// `hyper::Error::is_user` depends on the error alone.
pub assume_specification[ hyper::Error::is_user ](error: &hyper::Error) -> (r: bool)
    ensures
        r == is_user(*error),
;

/// `hyper::Error::is_canceled` depends on the error alone.
pub assume_specification[ hyper::Error::is_canceled ](error: &hyper::Error) -> (r: bool)
    ensures
        r == is_canceled(*error),
;

/// Displays a `hyper::Error`: a text that depends on the error alone.
#[verifier::external_body]
fn display_hyper_error(error: &hyper::Error) -> (r: String)
    ensures
        r@ == displayed(*error),
{
    format!("{}", error)
}

/// The `Debug` text of a `hyper::Error`: its name, and in brackets its kind, which
/// depends on the error alone, and its cause. Of the cause nothing is said: the
/// operating system may choose its words.
#[verifier::external_body]
fn debug_hyper_error(error: &hyper::Error) -> (r: String)
    ensures
        ("hyper::Error("@ + shown_kind(*error)).is_prefix_of(r@),
        ")"@.is_suffix_of(r@),
{
    format!("{:?}", error)
}

/// What ended a connection.
pub enum ConnectionFault<'a> {
    /// An error of the HTTP implementation.
    Hyper(&'a hyper::Error),
    /// An I/O error, in words.
    Io(String),
    /// Any other error, as it shows itself for debugging.
    Other(String),
}

/// The kinds of error that are told apart.
#[derive(Clone, Copy, Debug, PartialEq, Eq, Structural)]
pub enum FaultKind {
    IncompleteMessage,
    Closed,
    Parse,
    User,
    Canceled,
    UnknownHyper,
    Io,
    Other,
}

impl FaultKind {
    /// Whether the peer ended the connection, which is no fault of the server.
    pub open spec fn is_peer_ending(self) -> bool {
        self is IncompleteMessage || self is Closed || self is Canceled
    }

    /// How severe an error of the kind is.
    pub open spec fn spec_level(self) -> Level {
        if self.is_peer_ending() {
            Level::Warn
        } else {
            Level::Error
        }
    }

    /// What a report of an error of the kind begins with.
    pub open spec fn spec_heading(self) -> Seq<char> {
        match self {
            FaultKind::IncompleteMessage =>
                "The HTTP connection is closed prematurely and the message is not completed:"@,
            FaultKind::Closed => "The HTTP connection is closed:"@,
            FaultKind::Parse => "HTTP message parsing failed:"@,
            FaultKind::User => "HTTP user-custom error:"@,
            FaultKind::Canceled => "The HTTP connection is canceled:"@,
            FaultKind::UnknownHyper => "Unknown hyper error:"@,
            FaultKind::Io => "Unknown connection IO error:"@,
            FaultKind::Other => "Unknown connection error type:"@,
        }
    }

    /// How severe an error of the kind is.
    pub fn level(&self) -> (r: Level)
        ensures
            r == self.spec_level(),
    {
        match self {
            FaultKind::IncompleteMessage | FaultKind::Closed | FaultKind::Canceled => Level::Warn,
            _ => Level::Error,
        }
    }

    /// What a report of an error of the kind begins with.
    pub fn heading(&self) -> (r: String)
        ensures
            r@ == self.spec_heading(),
    {
        let heading = match self {
            FaultKind::IncompleteMessage =>
                "The HTTP connection is closed prematurely and the message is not completed:",
            FaultKind::Closed => "The HTTP connection is closed:",
            FaultKind::Parse => "HTTP message parsing failed:",
            FaultKind::User => "HTTP user-custom error:",
            FaultKind::Canceled => "The HTTP connection is canceled:",
            FaultKind::UnknownHyper => "Unknown hyper error:",
            FaultKind::Io => "Unknown connection IO error:",
            FaultKind::Other => "Unknown connection error type:",
        };
        heading.to_owned()
    }
}

/// What the HTTP implementation says of one of its errors.
#[derive(Clone, Copy, Debug, PartialEq, Eq)]
pub struct HyperTraits {
    pub incomplete_message: bool,
    pub closed: bool,
    pub parse: bool,
    pub user: bool,
    pub canceled: bool,
}

/// What the HTTP implementation says of an error.
pub open spec fn traits_of(error: hyper::Error) -> HyperTraits {
    HyperTraits {
        incomplete_message: is_incomplete_message(error),
        closed: is_closed(error),
        parse: is_parse(error),
        user: is_user(error),
        canceled: is_canceled(error),
    }
}

impl HyperTraits {
    /// The kind of such an error: the first of them that applies.
    pub open spec fn spec_kind(self) -> FaultKind {
        if self.incomplete_message {
            FaultKind::IncompleteMessage
        } else if self.closed {
            FaultKind::Closed
        } else if self.parse {
            FaultKind::Parse
        } else if self.user {
            FaultKind::User
        } else if self.canceled {
            FaultKind::Canceled
        } else {
            FaultKind::UnknownHyper
        }
    }

    /// The kind of such an error: the first of them that applies.
    pub fn kind(&self) -> (r: FaultKind)
        ensures
            r == self.spec_kind(),
    {
        if self.incomplete_message {
            FaultKind::IncompleteMessage
        } else if self.closed {
            FaultKind::Closed
        } else if self.parse {
            FaultKind::Parse
        } else if self.user {
            FaultKind::User
        } else if self.canceled {
            FaultKind::Canceled
        } else {
            FaultKind::UnknownHyper
        }
    }
}

/// The kind of an error.
pub open spec fn kind_of(fault: ConnectionFault<'_>) -> FaultKind {
    match fault {
        ConnectionFault::Hyper(error) => traits_of(*error).spec_kind(),
        ConnectionFault::Io(_) => FaultKind::Io,
        ConnectionFault::Other(_) => FaultKind::Other,
    }
}

/// The words for an error, where its kind is known.
pub open spec fn words_of(fault: ConnectionFault<'_>) -> Seq<char> {
    match fault {
        ConnectionFault::Hyper(error) => displayed(*error),
        ConnectionFault::Io(words) => words@,
        ConnectionFault::Other(words) => words@,
    }
}

/// Tells the kind of an error.
pub fn classify(fault: &ConnectionFault<'_>) -> (r: FaultKind)
    ensures
        r == kind_of(*fault),
{
    match fault {
        ConnectionFault::Hyper(error) => {
            let traits = HyperTraits {
                incomplete_message: error.is_incomplete_message(),
                closed: error.is_closed(),
                parse: error.is_parse(),
                user: error.is_user(),
                canceled: error.is_canceled(),
            };
            traits.kind()
        },
        ConnectionFault::Io(_) => FaultKind::Io,
        ConnectionFault::Other(_) => FaultKind::Other,
    }
}

/// The report of an error of a kind, in given words.
pub fn report(kind: FaultKind, words: &str) -> (r: LogLine)
    ensures
        r.level == kind.spec_level(),
        r.text@ == kind.spec_heading() + words@,
{
    let mut text = kind.heading();
    text.append(words);
    LogLine { level: kind.level(), text }
}

/// The words for a handshake that failed.
pub open spec fn handshake_words() -> Seq<char> {
    "TLS handshake failed"@
}

/// The report of a handshake that failed.
pub fn handshake_failure() -> (r: LogLine)
    ensures
        r.level is Error,
        r.text@ == handshake_words(),
{
    LogLine { level: Level::Error, text: "TLS handshake failed".to_owned() }
}

/// Reports the error that ended a connection, with the severity of its kind.
pub fn handle_connection_error(fault: &ConnectionFault<'_>) -> (r: LogLine)
    ensures
        r.level == kind_of(*fault).spec_level(),
        kind_of(*fault) is UnknownHyper ==> {
            &&& fault matches ConnectionFault::Hyper(error)
            &&& (kind_of(*fault).spec_heading() + ("hyper::Error("@ + shown_kind(
                **error,
            ))).is_prefix_of(r.text@)
            &&& ")"@.is_suffix_of(r.text@)
        },
        !(kind_of(*fault) is UnknownHyper) ==> r.text@ == kind_of(*fault).spec_heading() + words_of(
            *fault,
        ),
{
    let kind = classify(fault);
    match fault {
        ConnectionFault::Hyper(error) => match kind {
            FaultKind::UnknownHyper => {
                let words = debug_hyper_error(error);
                report(kind, words.as_str())
            },
            _ => {
                let words = display_hyper_error(error);
                report(kind, words.as_str())
            },
        },
        ConnectionFault::Io(words) => report(kind, words.as_str()),
        ConnectionFault::Other(words) => report(kind, words.as_str()),
    }
}

/// A connection begins with its handshake where TLS is configured, and with its
/// requests where it is not; an outcome leads on as its phase has it.
pub proof fn law_connection_goes_from_phase_to_phase(connection: Connection, ok: bool)
    ensures
        Connection::spec_begin(true).phase is Handshaking,
        Connection::spec_begin(false).phase == (ConnectionPhase::Serving { encrypted: false }),
        connection.phase is Handshaking && ok ==> connection.spec_step(ok).phase == (
        ConnectionPhase::Serving { encrypted: true }),
        connection.phase is Handshaking && !ok ==> connection.spec_step(ok).phase is Refusing,
        connection.phase is Serving ==> (connection.spec_step(ok).phase is Reporting <==> !ok),
        connection.phase is Serving ==> (connection.spec_step(ok).phase is Closed <==> ok),
        connection.phase is Refusing || connection.phase is Reporting || connection.phase is Closed
            ==> connection.spec_step(ok).phase is Closed,
        connection.spec_action() is Handshake <==> connection.phase is Handshaking,
        connection.spec_action() is ReportHandshake <==> connection.phase is Refusing,
        connection.spec_action() is Report <==> connection.phase is Reporting,
        connection.spec_action() is ReleaseWatch <==> connection.phase is Closed,
        connection.phase matches ConnectionPhase::Serving { encrypted }
            ==> connection.spec_action() == (ConnectionAction::ServeWatched { encrypted }),
{
}

/// The kind of an error of the HTTP implementation is the first that applies of: an
/// incomplete message, a closed connection, a message that cannot be parsed, an
/// error of the service, a canceled request; it is unknown just where none does.
pub proof fn law_first_trait_tells_the_kind(traits: HyperTraits)
    ensures
        traits.spec_kind() is IncompleteMessage <==> traits.incomplete_message,
        traits.spec_kind() is Closed <==> traits.closed && !traits.incomplete_message,
        traits.spec_kind() is Parse <==> traits.parse && !traits.closed
            && !traits.incomplete_message,
        traits.spec_kind() is User <==> traits.user && !traits.parse && !traits.closed
            && !traits.incomplete_message,
        traits.spec_kind() is Canceled <==> traits.canceled && !traits.user && !traits.parse
            && !traits.closed && !traits.incomplete_message,
        traits.spec_kind() is UnknownHyper <==> !traits.canceled && !traits.user && !traits.parse
            && !traits.closed && !traits.incomplete_message,
{
}

/// An error is of the kind that its own traits tell, an I/O error is an I/O error,
/// and any other is another; its words are its own.
pub proof fn law_errors_keep_their_kind_and_words(error: hyper::Error, words: String)
    ensures
        kind_of(ConnectionFault::Hyper(&error)) is IncompleteMessage <==> is_incomplete_message(
            error,
        ),
        kind_of(ConnectionFault::Hyper(&error)) is Closed <==> is_closed(error)
            && !is_incomplete_message(error),
        kind_of(ConnectionFault::Hyper(&error)) is Parse <==> is_parse(error) && !is_closed(error)
            && !is_incomplete_message(error),
        kind_of(ConnectionFault::Hyper(&error)) is User <==> is_user(error) && !is_parse(error)
            && !is_closed(error) && !is_incomplete_message(error),
        kind_of(ConnectionFault::Hyper(&error)) is Canceled <==> is_canceled(error) && !is_user(
            error,
        ) && !is_parse(error) && !is_closed(error) && !is_incomplete_message(error),
        kind_of(ConnectionFault::Io(words)) is Io,
        kind_of(ConnectionFault::Other(words)) is Other,
        words_of(ConnectionFault::Hyper(&error)) == displayed(error),
        words_of(ConnectionFault::Io(words)) == words@,
        words_of(ConnectionFault::Other(words)) == words@,
{
}

/// An error that the peer brought about by leaving is a warning, and every other is
/// an error; each kind is reported under its own heading.
pub proof fn law_kinds_have_their_level_and_heading(kind: FaultKind)
    ensures
        kind.spec_level() is Warn <==> kind is IncompleteMessage || kind is Closed
            || kind is Canceled,
        kind.spec_level() is Error <==> !(kind.spec_level() is Warn),
        kind is IncompleteMessage ==> kind.spec_heading()
            == "The HTTP connection is closed prematurely and the message is not completed:"@,
        kind is Closed ==> kind.spec_heading() == "The HTTP connection is closed:"@,
        kind is Parse ==> kind.spec_heading() == "HTTP message parsing failed:"@,
        kind is User ==> kind.spec_heading() == "HTTP user-custom error:"@,
        kind is Canceled ==> kind.spec_heading() == "The HTTP connection is canceled:"@,
        kind is UnknownHyper ==> kind.spec_heading() == "Unknown hyper error:"@,
        kind is Io ==> kind.spec_heading() == "Unknown connection IO error:"@,
        kind is Other ==> kind.spec_heading() == "Unknown connection error type:"@,
        handshake_words() == "TLS handshake failed"@,
{
}

} // verus!
