//! Interactive remote shells: a registry of live sessions, each addressed by
//! an opaque identifier and holding the queue of commands that its writer
//! has yet to deliver.

use crate::ident;
use crate::text;
use std::collections::HashMap;
use vstd::prelude::*;
use vstd::std_specs::iter::IteratorSpec;

verus! {

broadcast use vstd::std_specs::hash::group_hash_axioms;

pub const EVENT_DATA: &'static str = "ssh:data";

pub const EVENT_STDERR: &'static str = "ssh:stderr";

pub const EVENT_CLOSED: &'static str = "ssh:closed";

pub const MSG_SESSION_CLOSED: &'static str = "session closed";

pub const MSG_NOT_FOUND: &'static str = "session not found";

pub const MSG_ID_IN_USE: &'static str = "session identifier already in use";

pub const LINE_END: &'static str = "\n";

/// Where and as whom to open a remote shell.
#[derive(Debug, Clone, PartialEq, Eq)]
pub struct SshParams {
    pub host: String,
    pub user: String,
    pub pem_path: String,
}

/// The mathematical content of an [`SshParams`].
pub struct SshParamsModel {
    pub host: Seq<char>,
    pub user: Seq<char>,
    pub pem_path: Seq<char>,
}

impl View for SshParams {
    type V = SshParamsModel;

    open spec fn view(&self) -> SshParamsModel {
        SshParamsModel { host: self.host@, user: self.user@, pem_path: self.pem_path@ }
    }
}

/// A piece of a session's output, tagged with the session's identifier.
#[derive(Debug, Clone, PartialEq, Eq)]
pub struct SshDataEvent {
    pub id: String,
    pub chunk: String,
}

/// The mathematical content of an [`SshDataEvent`].
pub struct DataModel {
    pub id: Seq<char>,
    pub chunk: Seq<char>,
}

impl View for SshDataEvent {
    type V = DataModel;

    open spec fn view(&self) -> DataModel {
        DataModel { id: self.id@, chunk: self.chunk@ }
    }
}

/// What a session tells the event sink.
#[derive(Debug, Clone, PartialEq, Eq)]
pub enum SessionEvent {
    Data(SshDataEvent),
    Stderr(SshDataEvent),
    Closed(SshDataEvent),
}

/// The mathematical content of a [`SessionEvent`].
pub enum SessionEventModel {
    Data(DataModel),
    Stderr(DataModel),
    Closed(DataModel),
}

impl View for SessionEvent {
    type V = SessionEventModel;

    open spec fn view(&self) -> SessionEventModel {
        match self {
            SessionEvent::Data(d) => SessionEventModel::Data(d@),
            SessionEvent::Stderr(d) => SessionEventModel::Stderr(d@),
            SessionEvent::Closed(d) => SessionEventModel::Closed(d@),
        }
    }
}

/// The events of a sink, each by its content.
pub open spec fn events(sink: Seq<SessionEvent>) -> Seq<SessionEventModel> {
    sink.map_values(|e: SessionEvent| e@)
}

/// The name under which the event sink receives an event.
pub open spec fn event_name(event: SessionEventModel) -> Seq<char> {
    match event {
        SessionEventModel::Data(_) => EVENT_DATA@,
        SessionEventModel::Stderr(_) => EVENT_STDERR@,
        SessionEventModel::Closed(_) => EVENT_CLOSED@,
    }
}

impl SessionEvent {
    /// The name under which the event sink receives this event.
    pub fn name(&self) -> (r: &'static str)
        ensures
            r@ == event_name(self@),
    {
        match self {
            SessionEvent::Data(_) => EVENT_DATA,
            SessionEvent::Stderr(_) => EVENT_STDERR,
            SessionEvent::Closed(_) => EVENT_CLOSED,
        }
    }
}

/// Why a session operation failed.
#[derive(Debug, Clone, PartialEq, Eq)]
pub enum SessionError {
    /// No live session has the identifier.
    NotFound,
    /// The remote shell could not be established.
    Connect(String),
    /// The identifier drawn for a new session belongs to a live session.
    IdInUse,
}

/// The mathematical content of a [`SessionError`].
pub enum SessionErrorModel {
    NotFound,
    Connect(Seq<char>),
    IdInUse,
}

impl View for SessionError {
    type V = SessionErrorModel;

    open spec fn view(&self) -> SessionErrorModel {
        match self {
            SessionError::NotFound => SessionErrorModel::NotFound,
            SessionError::Connect(reason) => SessionErrorModel::Connect(reason@),
            SessionError::IdInUse => SessionErrorModel::IdInUse,
        }
    }
}

/// The message of an error.
pub open spec fn error_message(error: SessionErrorModel) -> Seq<char> {
    match error {
        SessionErrorModel::NotFound => MSG_NOT_FOUND@,
        SessionErrorModel::Connect(reason) => reason,
        SessionErrorModel::IdInUse => MSG_ID_IN_USE@,
    }
}

impl SessionError {
    /// The message of this error.
    pub fn message(&self) -> (r: String)
        ensures
            r@ == error_message(self@),
    {
        match self {
            SessionError::NotFound => text::owned(MSG_NOT_FOUND),
            SessionError::Connect(reason) => reason.clone(),
            SessionError::IdInUse => text::owned(MSG_ID_IN_USE),
        }
    }
}

/// A command as the writer delivers it: with a line end, added where the
/// command has none.
pub open spec fn terminated(cmd: Seq<char>) -> Seq<char> {
    if text::has_suffix(cmd, LINE_END@) {
        cmd
    } else {
        cmd + LINE_END@
    }
}

/// A command that has its line end is left as it is: giving a command its
/// line end twice is the same as giving it once.
pub proof fn lemma_terminated_once(cmd: Seq<char>)
    ensures
        text::has_suffix(terminated(cmd), LINE_END@),
        terminated(terminated(cmd)) == terminated(cmd),
{
    if !text::has_suffix(cmd, LINE_END@) {
        let whole = cmd + LINE_END@;
        assert(whole.subrange(whole.len() - LINE_END@.len(), whole.len() as int) =~= LINE_END@);
    }
}

/// Gives a command its line end.
pub fn terminate_line(cmd: String) -> (r: String)
    ensures
        r@ == terminated(cmd@),
{
    if text::ends_with(cmd.as_str(), LINE_END) {
        cmd
    } else {
        text::join(cmd.as_str(), LINE_END)
    }
}

/// A live session as the registry holds it: the commands accepted for it and
/// not yet delivered, oldest first.
#[derive(Debug)]
struct SshHandle {
    pending: Vec<String>,
}

impl View for SshHandle {
    type V = Seq<Seq<char>>;

    closed spec fn view(&self) -> Seq<Seq<char>> {
        text::texts(self.pending@)
    }
}

/// The registry by content: for the bits of each live identifier, the queue
/// of commands not yet delivered.
pub type RegistryModel = Map<u128, Seq<Seq<char>>>;

/// The live sessions, by identifier.
#[derive(Debug)]
pub struct SessionRegistry {
    sessions: HashMap<u128, SshHandle>,
}

impl View for SessionRegistry {
    type V = RegistryModel;

    closed spec fn view(&self) -> RegistryModel {
        self.sessions@.map_values(|h: SshHandle| h@)
    }
}

/// The answer to an operation addressed to a session: success where the
/// session is live, "not found" otherwise.
pub open spec fn addressed(registry: RegistryModel, key: u128) -> Result<(), SessionErrorModel> {
    if registry.contains_key(key) {
        Ok(())
    } else {
        Err(SessionErrorModel::NotFound)
    }
}

/// The registry after a new session was registered under `key`. A key that is
/// in use is refused and the registry stays as it is.
pub open spec fn after_register(registry: RegistryModel, key: u128) -> RegistryModel {
    if registry.contains_key(key) {
        registry
    } else {
        registry.insert(key, Seq::empty())
    }
}

/// The registry after a command was sent to the session under `key`: the
/// command joins the end of that session's queue. Without such a session
/// nothing changes.
pub open spec fn after_send(registry: RegistryModel, key: u128, cmd: Seq<char>) -> RegistryModel {
    if registry.contains_key(key) {
        registry.insert(key, registry[key].push(terminated(cmd)))
    } else {
        registry
    }
}

/// The command that the writer of the session under `key` delivers next.
pub open spec fn next_pending(registry: RegistryModel, key: u128) -> Option<Seq<char>> {
    if registry.contains_key(key) && registry[key].len() > 0 {
        Some(registry[key][0])
    } else {
        None
    }
}

/// The registry after the writer of the session under `key` took its next
/// command.
pub open spec fn after_delivery(registry: RegistryModel, key: u128) -> RegistryModel {
    if registry.contains_key(key) && registry[key].len() > 0 {
        registry.insert(key, registry[key].drop_first())
    } else {
        registry
    }
}

/// The registry after the session under `key` was closed.
pub open spec fn after_close(registry: RegistryModel, key: u128) -> RegistryModel {
    registry.remove(key)
}

/// The event that reports the end of the session under `key`.
pub open spec fn closed_event(key: u128) -> SessionEventModel {
    SessionEventModel::Closed(DataModel { id: ident::uuid_text(key), chunk: MSG_SESSION_CLOSED@ })
}

/// The events that closing the session under `key` causes.
pub open spec fn close_events(registry: RegistryModel, key: u128) -> Seq<SessionEventModel> {
    if registry.contains_key(key) {
        seq![closed_event(key)]
    } else {
        seq![]
    }
}

/// The event for a line that the session under `key` wrote to its standard
/// output.
pub open spec fn data_event(key: u128, line: Seq<char>) -> SessionEventModel {
    SessionEventModel::Data(DataModel { id: ident::uuid_text(key), chunk: line })
}

/// The event for a line that the session under `key` wrote to its standard
/// error.
pub open spec fn stderr_event(key: u128, line: Seq<char>) -> SessionEventModel {
    SessionEventModel::Stderr(DataModel { id: ident::uuid_text(key), chunk: line })
}

/// The events that a line of standard output causes: one data event while the
/// session is live, none once it is closed.
pub open spec fn stdout_events(registry: RegistryModel, key: u128, line: Seq<char>) -> Seq<
    SessionEventModel,
> {
    if registry.contains_key(key) {
        seq![data_event(key, line)]
    } else {
        seq![]
    }
}

/// The answer to an operation, by content.
pub open spec fn unit_result_view(r: Result<(), SessionError>) -> Result<(), SessionErrorModel> {
    match r {
        Ok(()) => Ok(()),
        Err(e) => Err(e@),
    }
}

fn emit(sink: &mut Vec<SessionEvent>, event: SessionEvent)
    ensures
        final(sink)@ == old(sink)@.push(event),
        events(final(sink)@) == events(old(sink)@).push(event@),
{
    sink.push(event);
}

impl SessionRegistry {
    /// A registry without sessions.
    pub fn new() -> (r: Self)
        ensures
            r@ == Map::<u128, Seq<Seq<char>>>::empty(),
    {
        let r = SessionRegistry { sessions: HashMap::new() };
        r
    }

    /// The number of live sessions.
    pub fn len(&self) -> (r: usize)
        ensures
            r == self@.len(),
    {
        proof {
            assert(self@.dom() =~= self.sessions@.dom());
        }
        self.sessions.len()
    }

    /// Whether a session with this identifier is live.
    pub fn contains(&self, id: &uuid::Uuid) -> (r: bool)
        ensures
            r == self@.contains_key(ident::uuid_bits(*id)),
    {
        let key = ident::bits(id);
        self.sessions.contains_key(&key)
    }

    /// The number of commands that the session has yet to deliver.
    pub fn pending(&self, id: &uuid::Uuid) -> (r: Option<usize>)
        ensures
            match r {
                Some(n) => self@.contains_key(ident::uuid_bits(*id)) && n == self@[ident::uuid_bits(
                    *id,
                )].len(),
                None => !self@.contains_key(ident::uuid_bits(*id)),
            },
    {
        let key = ident::bits(id);
        match self.sessions.get(&key) {
            Some(handle) => Some(handle.pending.len()),
            None => None,
        }
    }
}

/// Registers a new session under an identifier that the caller has drawn.
/// An identifier that belongs to a live session is refused, so that no
/// identifier ever addresses two sessions.
pub fn register_session(registry: &mut SessionRegistry, id: uuid::Uuid) -> (r: Result<
    uuid::Uuid,
    SessionError,
>)
    ensures
        final(registry)@ == after_register(old(registry)@, ident::uuid_bits(id)),
        match r {
            Ok(issued) => issued == id && !old(registry)@.contains_key(ident::uuid_bits(id)),
            Err(e) => e@ == SessionErrorModel::IdInUse && old(registry)@.contains_key(
                ident::uuid_bits(id),
            ),
        },
{
    let key = ident::bits(&id);
    if registry.sessions.contains_key(&key) {
        return Err(SessionError::IdInUse);
    }
    let handle = SshHandle { pending: Vec::new() };
    assert(handle@ =~= Seq::<Seq<char>>::empty());
    registry.sessions.insert(key, handle);
    Ok(id)
}

/// Starts a session. `connected` is the outcome of establishing the remote
/// shell. On failure nothing is registered and the reason is handed back.
/// On success a fresh identifier is drawn and the session registered under
/// it; the start can then fail only where the identifier drawn belongs to a
/// live session, so it succeeds whenever no session is live.
pub fn start_interactive_session(
    registry: &mut SessionRegistry,
    connected: Result<(), String>,
) -> (r: Result<uuid::Uuid, SessionError>)
    ensures
        match connected {
            Err(reason) => r matches Err(e) && e@ == SessionErrorModel::Connect(reason@)
                && final(registry)@ == old(registry)@,
            Ok(()) => match r {
                Ok(id) => !old(registry)@.contains_key(ident::uuid_bits(id)) && final(registry)@
                    == old(registry)@.insert(ident::uuid_bits(id), Seq::empty()),
                Err(e) => e@ == SessionErrorModel::IdInUse && final(registry)@ == old(registry)@,
            },
        },
        connected is Ok && r is Err ==> exists|key: u128| #[trigger]
            old(registry)@.contains_key(key),
{
    match connected {
        Err(reason) => Err(SessionError::Connect(reason)),
        Ok(()) => register_session(registry, ident::fresh()),
    }
}

/// Queues a command for a session. The command is given a line end if it has
/// none and joins the end of the session's queue.
pub fn send_command(registry: &mut SessionRegistry, id: uuid::Uuid, cmd: String) -> (r: Result<
    (),
    SessionError,
>)
    ensures
        unit_result_view(r) == addressed(old(registry)@, ident::uuid_bits(id)),
        final(registry)@ == after_send(old(registry)@, ident::uuid_bits(id), cmd@),
{
    let key = ident::bits(&id);
    match registry.sessions.remove(&key) {
        None => {
            Err(SessionError::NotFound)
        },
        Some(handle) => {
            let mut handle = handle;
            let ghost before = handle@;
            handle.pending.push(terminate_line(cmd));
            assert(handle@ =~= before.push(terminated(cmd@)));
            registry.sessions.insert(key, handle);
            Ok(())
        },
    }
}

/// Takes the command that the session's writer delivers next: the oldest one
/// still queued.
pub fn next_command(registry: &mut SessionRegistry, id: &uuid::Uuid) -> (r: Option<String>)
    ensures
        text::optional_text(r) == next_pending(old(registry)@, ident::uuid_bits(*id)),
        final(registry)@ == after_delivery(old(registry)@, ident::uuid_bits(*id)),
{
    let key = ident::bits(id);
    match registry.sessions.remove(&key) {
        None => {
            None
        },
        Some(handle) => {
            let mut handle = handle;
            let ghost before = handle@;
            let next = if handle.pending.len() > 0 {
                let first = handle.pending.remove(0);
                assert(handle@ =~= before.drop_first());
                Some(first)
            } else {
                None
            };
            registry.sessions.insert(key, handle);
            next
        },
    }
}

/// Closes a session: removes it from the registry, so that nothing can be
/// sent to it any more, and reports its end.
pub fn close_session(
    registry: &mut SessionRegistry,
    sink: &mut Vec<SessionEvent>,
    id: uuid::Uuid,
) -> (r: Result<(), SessionError>)
    ensures
        unit_result_view(r) == addressed(old(registry)@, ident::uuid_bits(id)),
        final(registry)@ == after_close(old(registry)@, ident::uuid_bits(id)),
        events(final(sink)@) == events(old(sink)@) + close_events(
            old(registry)@,
            ident::uuid_bits(id),
        ),
        r is Err ==> *final(sink) == *old(sink),
{
    let key = ident::bits(&id);
    match registry.sessions.remove(&key) {
        None => {
            Err(SessionError::NotFound)
        },
        Some(_) => {
            let event = SshDataEvent {
                id: ident::text(&id),
                chunk: text::owned(MSG_SESSION_CLOSED),
            };
            emit(sink, SessionEvent::Closed(event));
            Ok(())
        },
    }
}

/// Reports a line that a session wrote to its standard output, and says
/// whether the reader is to go on: a closed session emits nothing and its
/// reader stops.
pub fn on_stdout_line(
    registry: &SessionRegistry,
    sink: &mut Vec<SessionEvent>,
    id: &uuid::Uuid,
    line: String,
) -> (r: bool)
    ensures
        r == registry@.contains_key(ident::uuid_bits(*id)),
        events(final(sink)@) == events(old(sink)@) + stdout_events(
            registry@,
            ident::uuid_bits(*id),
            line@,
        ),
{
    if registry.contains(id) {
        emit(sink, SessionEvent::Data(SshDataEvent { id: ident::text(id), chunk: line }));
        true
    } else {
        false
    }
}

/// Reports a line that a session wrote to its standard error.
pub fn on_stderr_line(sink: &mut Vec<SessionEvent>, id: &uuid::Uuid, line: String)
    ensures
        events(final(sink)@) == events(old(sink)@).push(
            stderr_event(ident::uuid_bits(*id), line@),
        ),
{
    emit(sink, SessionEvent::Stderr(SshDataEvent { id: ident::text(id), chunk: line }));
}

/// A command sent to an identifier without a live session fails with "not
/// found" and changes nothing. Closing a session makes its identifier such an
/// identifier at once: sending to it and closing it again both fail.
pub proof fn lemma_unknown_session_not_found(registry: RegistryModel, key: u128, cmd: Seq<char>)
    ensures
        !registry.contains_key(key) ==> addressed(registry, key) == Err::<(), SessionErrorModel>(
            SessionErrorModel::NotFound,
        ) && after_send(registry, key, cmd) == registry,
        addressed(after_close(registry, key), key) == Err::<(), SessionErrorModel>(
            SessionErrorModel::NotFound,
        ),
        after_send(after_close(registry, key), key, cmd) == after_close(registry, key),
        close_events(after_close(registry, key), key) == Seq::<SessionEventModel>::empty(),
        error_message(SessionErrorModel::NotFound) == MSG_NOT_FOUND@,
{
}

/// Commands leave a session's queue in the order in which they were sent.
pub proof fn lemma_commands_in_order(
    registry: RegistryModel,
    key: u128,
    first: Seq<char>,
    second: Seq<char>,
)
    requires
        registry.contains_key(key),
        registry[key].len() == 0,
    ensures
        ({
            let sent = after_send(after_send(registry, key, first), key, second);
            &&& next_pending(sent, key) == Some(terminated(first))
            &&& next_pending(after_delivery(sent, key), key) == Some(terminated(second))
            &&& next_pending(after_delivery(after_delivery(sent, key), key), key).is_none()
        }),
{
}

/// The bits of a list of identifiers.
pub open spec fn id_bits(ids: Seq<uuid::Uuid>) -> Seq<u128> {
    ids.map_values(|id: uuid::Uuid| ident::uuid_bits(id))
}

/// The events that report the end of the sessions under `keys`, in order.
pub open spec fn closed_events(keys: Seq<u128>) -> Seq<SessionEventModel> {
    keys.map_values(|key: u128| closed_event(key))
}

fn session_keys(registry: &SessionRegistry) -> (r: Vec<u128>)
    ensures
        r@.no_duplicates(),
        r@.to_set() == registry@.dom(),
{
    let ghost all = vstd::std_specs::hash::spec_keys_iter(&registry.sessions).remaining().unref();
    let mut keys: Vec<u128> = Vec::new();
    for key in it: registry.sessions.keys()
        invariant
            it.seq().unref() == all,
            keys@ == all.subrange(0, it.index()),
    {
        keys.push(*key);
    }
    assert(keys@ =~= all);
    keys
}

/// Closes every live session, one after the other, and hands back the
/// identifiers of the sessions it closed. The order among them is the
/// registry's own and not promised.
pub fn close_all_sessions(registry: &mut SessionRegistry, sink: &mut Vec<SessionEvent>) -> (r: Vec<
    uuid::Uuid,
>)
    ensures
        final(registry)@ == Map::<u128, Seq<Seq<char>>>::empty(),
        id_bits(r@).no_duplicates(),
        id_bits(r@).to_set() == old(registry)@.dom(),
        events(final(sink)@) == events(old(sink)@) + closed_events(id_bits(r@)),
{
    let keys = session_keys(registry);
    let mut closed: Vec<uuid::Uuid> = Vec::new();
    let mut i: usize = 0;
    while i < keys.len()
        invariant
            i <= keys.len(),
            keys@.no_duplicates(),
            keys@.to_set() == old(registry)@.dom(),
            registry@ == old(registry)@.remove_keys(keys@.subrange(0, i as int).to_set()),
            id_bits(closed@) == keys@.subrange(0, i as int),
            events(sink@) == events(old(sink)@) + closed_events(keys@.subrange(0, i as int)),
        decreases keys.len() - i,
    {
        let key = keys[i];
        let id = ident::from_bits(key);
        // No key occurs twice, so the session under `key` is still live here.
        let _ = close_session(registry, sink, id);
        closed.push(id);
        proof {
            let done = keys@.subrange(0, i as int);
            let next = keys@.subrange(0, i + 1);
            assert(next =~= done.push(key));
            done.lemma_push_to_set_commute(key);
        }
        i += 1;
    }
    proof {
        assert(keys@.subrange(0, i as int) =~= keys@);
    }
    closed
}

pub const SSH_IDENTITY: &'static str = "-i";

pub const SSH_FORCE_TTY: &'static str = "-tt";

pub const SSH_OPTION: &'static str = "-o";

pub const SSH_ACCEPT_NEW: &'static str = "StrictHostKeyChecking=accept-new";

pub const AT: &'static str = "@";

/// The arguments of the shell client for an interactive session.
pub open spec fn interactive_arguments(params: SshParamsModel) -> Seq<Seq<char>> {
    seq![
        SSH_IDENTITY@,
        params.pem_path,
        SSH_FORCE_TTY@,
        SSH_OPTION@,
        SSH_ACCEPT_NEW@,
        params.user + AT@ + params.host,
    ]
}

/// The arguments with which the shell client is started for an interactive
/// session: the key file, a forced terminal, and the target.
pub fn connect_interactive(params: &SshParams) -> (r: Vec<String>)
    ensures
        text::texts(r@) == interactive_arguments(params@),
{
    let mut target = text::join(params.user.as_str(), AT);
    target.append(params.host.as_str());
    let mut out: Vec<String> = Vec::new();
    out.push(text::owned(SSH_IDENTITY));
    out.push(params.pem_path.clone());
    out.push(text::owned(SSH_FORCE_TTY));
    out.push(text::owned(SSH_OPTION));
    out.push(text::owned(SSH_ACCEPT_NEW));
    out.push(target);
    out
}

/// An identifier in use is never given to another session: registering
/// leaves every live session under its identifier with its queue untouched,
/// and an identifier that is in use is refused.
pub proof fn lemma_identifier_not_reused(registry: RegistryModel, key: u128, live: u128)
    requires
        registry.contains_key(live),
    ensures
        after_register(registry, key).contains_key(live),
        after_register(registry, key)[live] == registry[live],
        after_register(registry, live) == registry,
{
}

} // verus!
