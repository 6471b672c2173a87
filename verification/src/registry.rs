//! The table that ties each event source of the control loop to the token
//! under which the readiness multiplexer reports it.

use crate::role::Role;
use vstd::prelude::*;

verus! {

/// Token of the cancellation signal in the usual table.
pub const STOP_PROGRAM: usize = 0;

/// Token of the data reader in the usual table.
pub const READER_READY: usize = 1;

/// Token of the status channel in the usual table.
pub const STATUS_READY: usize = 2;

/// The kinds of event source that the control loop waits for.
#[derive(Debug, PartialEq, Eq, Clone, Copy, Structural)]
pub enum Source {
    /// The one-shot cancellation signal.
    Stop,
    /// Data available at the reader.
    Reader,
    /// A status change of the reader or the writer.
    Status,
}

/// Why a registration was turned down.
#[derive(Debug, PartialEq, Eq, Clone, Copy, Structural)]
pub enum RegistryError {
    /// The source already has a token; a source registers once.
    SourceRegistered,
    /// The token already stands for another source.
    TokenTaken,
}

/// The token bound to `source` in `table`, if any.
pub open spec fn token_of(table: Map<Source, usize>, source: Source) -> Option<usize> {
    if table.dom().contains(source) {
        Some(table[source])
    } else {
        None
    }
}

/// The source that `token` stands for in `table`, if any.
pub open spec fn source_of(table: Map<Source, usize>, token: usize) -> Option<Source> {
    if token_of(table, Source::Stop) == Some(token) {
        Some(Source::Stop)
    } else if token_of(table, Source::Reader) == Some(token) {
        Some(Source::Reader)
    } else if token_of(table, Source::Status) == Some(token) {
        Some(Source::Status)
    } else {
        None
    }
}

/// No two sources of `table` share a token.
pub open spec fn distinct_tokens(table: Map<Source, usize>) -> bool {
    forall|a: Source, b: Source|
        table.dom().contains(a) && table.dom().contains(b) && #[trigger] table[a]
            == #[trigger] table[b] ==> a == b
}

/// What registering `source` under `token` in `table` comes to: the larger
/// table, or the reason for the refusal.
pub open spec fn register_verdict(table: Map<Source, usize>, source: Source, token: usize)
    -> Result<Map<Source, usize>, RegistryError> {
    if table.dom().contains(source) {
        Err(RegistryError::SourceRegistered)
    } else if source_of(table, token) is Some {
        Err(RegistryError::TokenTaken)
    } else {
        Ok(table.insert(source, token))
    }
}

/// The table that a process of the given role sets up: the cancellation
/// signal and the status channel always, the reader for a subscriber only.
pub open spec fn usual_table(role: Role) -> Map<Source, usize> {
    let both = Map::<Source, usize>::empty().insert(Source::Stop, STOP_PROGRAM).insert(
        Source::Status,
        STATUS_READY,
    );
    match role {
        Role::Publisher => both,
        Role::Subscriber => both.insert(Source::Reader, READER_READY),
    }
}

/// The association of event sources with tokens. It only grows: a source
/// is registered once and never taken out.
#[derive(Debug)]
pub struct Registry {
    stop: Option<usize>,
    reader: Option<usize>,
    status: Option<usize>,
}

impl View for Registry {
    type V = Map<Source, usize>;

    closed spec fn view(&self) -> Map<Source, usize> {
        Map::new(|s: Source| self.slot(s) is Some, |s: Source| self.slot(s)->0)
    }
}

impl Registry {
    spec fn slot(self, source: Source) -> Option<usize> {
        match source {
            Source::Stop => self.stop,
            Source::Reader => self.reader,
            Source::Status => self.status,
        }
    }

    #[verifier::type_invariant]
    spec fn inv(self) -> bool {
        distinct_tokens(self@)
    }

    /// The empty table.
    pub fn new() -> (made: Registry)
        ensures
            made@ == Map::<Source, usize>::empty(),
    {
        let made = Registry { stop: None, reader: None, status: None };
        assert(made@ =~= Map::<Source, usize>::empty());
        made
    }

    /// The token of `source`, if it is registered.
    pub fn token_of(&self, source: Source) -> (token: Option<usize>)
        ensures
            token == token_of(self@, source),
    {
        match source {
            Source::Stop => self.stop,
            Source::Reader => self.reader,
            Source::Status => self.status,
        }
    }

    /// The source registered under `token`, if there is one.
    pub fn source_of(&self, token: usize) -> (source: Option<Source>)
        ensures
            source == source_of(self@, token),
            distinct_tokens(self@),
    {
        proof {
            use_type_invariant(self);
        }
        if self.stop == Some(token) {
            Some(Source::Stop)
        } else if self.reader == Some(token) {
            Some(Source::Reader)
        } else if self.status == Some(token) {
            Some(Source::Status)
        } else {
            None
        }
    }

    /// Registers `source` under `token`. A source that is registered
    /// already, or a token that is in use, leaves the table as it was.
    pub fn register(&mut self, source: Source, token: usize) -> (done: Result<(), RegistryError>)
        ensures
            register_verdict(old(self)@, source, token) == match done {
                Ok(()) => Ok::<Map<Source, usize>, RegistryError>(final(self)@),
                Err(e) => Err(e),
            },
            done is Err ==> final(self)@ == old(self)@,
            distinct_tokens(final(self)@),
    {
        proof {
            use_type_invariant(&*self);
        }
        if self.token_of(source).is_some() {
            return Err(RegistryError::SourceRegistered);
        }
        if self.source_of(token).is_some() {
            return Err(RegistryError::TokenTaken);
        }
        let ghost before = self@;
        match source {
            Source::Stop => {
                self.stop = Some(token);
            },
            Source::Reader => {
                self.reader = Some(token);
            },
            Source::Status => {
                self.status = Some(token);
            },
        }
        assert(self@ =~= before.insert(source, token));
        Ok(())
    }

    /// The table of a process of the given role.
    pub fn for_role(role: Role) -> (made: Registry)
        ensures
            made@ == usual_table(role),
    {
        let made = match role {
            Role::Publisher => Registry {
                stop: Some(STOP_PROGRAM),
                reader: None,
                status: Some(STATUS_READY),
            },
            Role::Subscriber => Registry {
                stop: Some(STOP_PROGRAM),
                reader: Some(READER_READY),
                status: Some(STATUS_READY),
            },
        };
        assert(made@ =~= usual_table(role));
        made
    }
}

/// A registration that is accepted keeps the tokens distinct, and changes
/// nothing but the entry of the new source.
pub proof fn lemma_register_keeps_tokens_distinct(
    table: Map<Source, usize>,
    source: Source,
    token: usize,
)
    requires
        distinct_tokens(table),
        register_verdict(table, source, token) is Ok,
    ensures
        distinct_tokens(register_verdict(table, source, token)->Ok_0),
        token_of(register_verdict(table, source, token)->Ok_0, source) == Some(token),
        forall|other: Source|
            other != source ==> token_of(register_verdict(table, source, token)->Ok_0, other)
                == #[trigger] token_of(table, other),
{
}

/// Where tokens are distinct, looking a source up by its token finds that
/// source, and a token found for a source leads back to it.
pub proof fn lemma_lookups_invert(table: Map<Source, usize>, source: Source, token: usize)
    requires
        distinct_tokens(table),
    ensures
        token_of(table, source) == Some(token) <==> source_of(table, token) == Some(source),
{
}

/// The usual tables have distinct tokens; the reader is registered for a
/// subscriber and for nobody else.
pub proof fn lemma_usual_table(role: Role)
    ensures
        distinct_tokens(usual_table(role)),
        source_of(usual_table(role), STOP_PROGRAM) == Some(Source::Stop),
        source_of(usual_table(role), STATUS_READY) == Some(Source::Status),
        source_of(usual_table(role), READER_READY) == (if role == Role::Subscriber {
            Some(Source::Reader)
        } else {
            None
        }),
        forall|token: usize|
            token > 2 ==> #[trigger] source_of(usual_table(role), token) == None::<Source>,
{
}

} // verus!
