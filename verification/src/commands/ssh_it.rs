//! Interactive sessions as the user interface addresses them: by the text of
//! their identifier.

use crate::features::ssh_rt;
use crate::features::ssh_rt::RegistryModel;
use crate::features::ssh_rt::SessionError;
use crate::features::ssh_rt::SessionEvent;
use crate::features::ssh_rt::SessionRegistry;
use crate::ident;
use vstd::prelude::*;

verus! {

/// An answer without a value, by content.
pub open spec fn answer_view(r: Result<(), String>) -> Result<(), Seq<char>> {
    match r {
        Ok(()) => Ok(()),
        Err(reason) => Err(reason@),
    }
}

/// The session that a text addresses: the live session whose identifier the
/// text spells. A text that spells no identifier addresses no session.
pub open spec fn addressee(registry: RegistryModel, id: Seq<char>) -> Option<u128> {
    match ident::uuid_parse(id) {
        Some(key) => if registry.contains_key(key) {
            Some(key)
        } else {
            None
        },
        None => None,
    }
}

/// The answer to an operation addressed to a session by the text of its
/// identifier: success where the text addresses a live session, "not found"
/// for every other text.
pub open spec fn addressed_by_text(registry: RegistryModel, id: Seq<char>) -> Result<
    (),
    Seq<char>,
> {
    if addressee(registry, id) is Some {
        Ok(())
    } else {
        Err(ssh_rt::MSG_NOT_FOUND@)
    }
}

/// Starts a session and hands back the text of its identifier. `connected`
/// is the outcome of establishing the remote shell. After a successful
/// connection the start fails only where the identifier drawn belongs to a
/// live session, so it succeeds whenever no session is live.
pub fn ssh_start(registry: &mut SessionRegistry, connected: Result<(), String>) -> (r: Result<
    String,
    String,
>)
    ensures
        match connected {
            Err(reason) => r matches Err(e) && e@ == reason@ && final(registry)@ == old(
                registry,
            )@,
            Ok(()) => match r {
                Ok(id) => exists|key: u128|
                    id@ == #[trigger] ident::uuid_text(key) && !old(registry)@.contains_key(key)
                        && final(registry)@ == old(registry)@.insert(key, Seq::empty()),
                Err(e) => e@ == ssh_rt::MSG_ID_IN_USE@ && final(registry)@ == old(registry)@,
            },
        },
        connected is Ok && r is Err ==> exists|key: u128| #[trigger]
            old(registry)@.contains_key(key),
{
    match ssh_rt::start_interactive_session(registry, connected) {
        Ok(id) => {
            let shown = ident::text(&id);
            Ok(shown)
        },
        Err(e) => Err(e.message()),
    }
}

/// Queues a command for the session with this identifier.
pub fn ssh_send(registry: &mut SessionRegistry, id: String, cmd: String) -> (r: Result<(), String>)
    ensures
        answer_view(r) == addressed_by_text(old(registry)@, id@),
        final(registry)@ == match ident::uuid_parse(id@) {
            Some(key) => ssh_rt::after_send(old(registry)@, key, cmd@),
            None => old(registry)@,
        },
{
    let parsed = match ident::parse(id.as_str()) {
        Ok(parsed) => parsed,
        Err(_) => {
            return Err(SessionError::NotFound.message());
        },
    };
    match ssh_rt::send_command(registry, parsed, cmd) {
        Ok(()) => Ok(()),
        Err(e) => Err(e.message()),
    }
}

/// Closes the session with this identifier.
pub fn ssh_close(registry: &mut SessionRegistry, sink: &mut Vec<SessionEvent>, id: String) -> (r:
    Result<(), String>)
    ensures
        answer_view(r) == addressed_by_text(old(registry)@, id@),
        final(registry)@ == match ident::uuid_parse(id@) {
            Some(key) => ssh_rt::after_close(old(registry)@, key),
            None => old(registry)@,
        },
        ssh_rt::events(final(sink)@) == ssh_rt::events(old(sink)@) + match ident::uuid_parse(id@) {
            Some(key) => ssh_rt::close_events(old(registry)@, key),
            None => Seq::empty(),
        },
{
    let parsed = match ident::parse(id.as_str()) {
        Ok(parsed) => parsed,
        Err(e) => {
            return Err(SessionError::NotFound.message());
        },
    };
    match ssh_rt::close_session(registry, sink, parsed) {
        Ok(()) => Ok(()),
        Err(e) => Err(e.message()),
    }
}

/// A command addressed to a text that names no live session fails with "not
/// found" and changes nothing, whether the text spells an identifier or not.
/// Closing a session makes the text of its identifier such a text at once.
pub proof fn lemma_unknown_text_not_found(registry: RegistryModel, id: Seq<char>, cmd: Seq<char>)
    ensures
        addressee(registry, id) is None ==> addressed_by_text(registry, id) == Err::<
            (),
            Seq<char>,
        >(ssh_rt::MSG_NOT_FOUND@),
        addressee(registry, id) is None ==> (match ident::uuid_parse(id) {
            Some(key) => ssh_rt::after_send(registry, key, cmd),
            None => registry,
        }) == registry,
        ident::uuid_parse(id) matches Some(key) ==> addressed_by_text(
            ssh_rt::after_close(registry, key),
            id,
        ) == Err::<(), Seq<char>>(ssh_rt::MSG_NOT_FOUND@),
{
}

} // verus!
