//! The list of known remote targets: one entry per host and user, kept in
//! order of host and user.

use crate::text;
use vstd::prelude::*;

verus! {

/// A remote target: where to connect, as whom, and with which key file.
#[derive(Debug, Clone, PartialEq, Eq)]
pub struct SshParams {
    pub host: String,
    pub user: String,
    pub pem_path: String,
}

/// The mathematical content of an [`SshParams`].
pub struct EntryModel {
    pub host: Seq<char>,
    pub user: Seq<char>,
    pub pem_path: Seq<char>,
}

impl View for SshParams {
    type V = EntryModel;

    open spec fn view(&self) -> EntryModel {
        EntryModel { host: self.host@, user: self.user@, pem_path: self.pem_path@ }
    }
}

/// The entries of a list, each by its content.
pub open spec fn entries(list: Seq<SshParams>) -> Seq<EntryModel> {
    list.map_values(|p: SshParams| p@)
}

/// The entry is the one for this host and user.
pub open spec fn has_key(entry: EntryModel, host: Seq<char>, user: Seq<char>) -> bool {
    entry.host == host && entry.user == user
}

/// The index of the first entry for this host and user, or the length of the
/// list where there is none.
pub open spec fn position(list: Seq<EntryModel>, host: Seq<char>, user: Seq<char>) -> int
    decreases list.len(),
{
    if list.len() == 0 {
        0
    } else if has_key(list[0], host, user) {
        0
    } else {
        1 + position(list.drop_first(), host, user)
    }
}

/// The entries for this host and user, in the order of the list.
pub open spec fn with_key(list: Seq<EntryModel>, host: Seq<char>, user: Seq<char>) -> Seq<
    EntryModel,
> {
    list.filter(|e: EntryModel| has_key(e, host, user))
}

/// The entries for any other host or user, in the order of the list.
pub open spec fn without_key(list: Seq<EntryModel>, host: Seq<char>, user: Seq<char>) -> Seq<
    EntryModel,
> {
    list.filter(|e: EntryModel| !has_key(e, host, user))
}

/// The order of entries: by host, and among equal hosts by user.
pub open spec fn key_le(a: EntryModel, b: EntryModel) -> bool {
    if a.host == b.host {
        text::lex_le(a.user, b.user)
    } else {
        text::lex_le(a.host, b.host)
    }
}

/// The list is in order of host and user.
pub open spec fn sorted(list: Seq<EntryModel>) -> bool {
    forall|i: int, j: int|
        0 <= i <= j < list.len() ==> key_le(#[trigger] list[i], #[trigger] list[j])
}

/// The entry with another key file.
pub open spec fn with_pem(entry: EntryModel, pem_path: Seq<char>) -> EntryModel {
    EntryModel { pem_path, ..entry }
}

/// The list after an entry was added: the first entry for the same host and
/// user takes over the new key file, or, where there is none, the new entry
/// joins the end.
pub open spec fn upserted(list: Seq<EntryModel>, item: EntryModel) -> Seq<EntryModel> {
    let at = position(list, item.host, item.user);
    if at < list.len() {
        list.update(at, with_pem(list[at], item.pem_path))
    } else {
        list.push(item)
    }
}

/// Whether an update changes the list: there is an entry for the host and
/// user, a new key file is given, and it differs from the entry's.
pub open spec fn update_changes(
    list: Seq<EntryModel>,
    host: Seq<char>,
    user: Seq<char>,
    pem_path: Option<Seq<char>>,
) -> bool {
    let at = position(list, host, user);
    &&& at < list.len()
    &&& pem_path matches Some(p)
    &&& list[at].pem_path != p
}

/// The list after an update: the first entry for the host and user has the
/// new key file, where one is given.
pub open spec fn updated(
    list: Seq<EntryModel>,
    host: Seq<char>,
    user: Seq<char>,
    pem_path: Option<Seq<char>>,
) -> Seq<EntryModel> {
    let at = position(list, host, user);
    match pem_path {
        Some(p) => if at < list.len() {
            list.update(at, with_pem(list[at], p))
        } else {
            list
        },
        None => list,
    }
}

/// `position` is the least index of an entry for the host and user.
pub proof fn lemma_position(list: Seq<EntryModel>, host: Seq<char>, user: Seq<char>)
    ensures
        0 <= position(list, host, user) <= list.len(),
        forall|j: int|
            0 <= j < position(list, host, user) ==> !has_key(#[trigger] list[j], host, user),
        position(list, host, user) < list.len() ==> has_key(
            list[position(list, host, user)],
            host,
            user,
        ),
    decreases list.len(),
{
    if list.len() > 0 && !has_key(list[0], host, user) {
        let rest = list.drop_first();
        lemma_position(rest, host, user);
        assert forall|j: int| 0 <= j < position(list, host, user) implies !has_key(
            #[trigger] list[j],
            host,
            user,
        ) by {
            if j > 0 {
                assert(list[j] == rest[j - 1]);
            }
        }
    }
}

/// An index below which no entry is for the host and user, and which is the
/// end of the list or holds such an entry, is the `position`.
pub proof fn lemma_position_is(list: Seq<EntryModel>, host: Seq<char>, user: Seq<char>, at: int)
    requires
        0 <= at <= list.len(),
        forall|j: int| 0 <= j < at ==> !has_key(#[trigger] list[j], host, user),
        at < list.len() ==> has_key(list[at], host, user),
    ensures
        position(list, host, user) == at,
{
    lemma_position(list, host, user);
    let p = position(list, host, user);
    if p < at {
        assert(!has_key(list[p], host, user));
    }
    if at < p {
        assert(!has_key(list[at], host, user));
    }
}

/// Whether the entry is the one for this host and user.
pub fn is_entry_for(entry: &SshParams, host: &str, user: &str) -> (r: bool)
    ensures
        r == has_key(entry@, host@, user@),
{
    text::same(entry.host.as_str(), host) && text::same(entry.user.as_str(), user)
}

/// The index of the first entry for this host and user, or the length of the
/// list where there is none.
pub fn find_entry(list: &Vec<SshParams>, host: &str, user: &str) -> (r: usize)
    ensures
        r == position(entries(list@), host@, user@),
{
    let mut i: usize = 0;
    while i < list.len()
        invariant
            i <= list.len(),
            forall|j: int| 0 <= j < i ==> !has_key(#[trigger] entries(list@)[j], host@, user@),
        decreases list.len() - i,
    {
        if is_entry_for(&list[i], host, user) {
            proof {
                lemma_position_is(entries(list@), host@, user@, i as int);
            }
            return i;
        }
        i += 1;
    }
    proof {
        lemma_position_is(entries(list@), host@, user@, i as int);
    }
    i
}

/// The entries on record: those that were stored, or none where nothing was
/// stored yet.
pub fn read_all_entries(stored: Option<Vec<SshParams>>) -> (r: Vec<SshParams>)
    ensures
        match stored {
            Some(list) => r == list,
            None => r@ == Seq::<SshParams>::empty(),
        },
{
    match stored {
        Some(list) => list,
        None => Vec::new(),
    }
}

/// Changes the key file of the first entry for a host and user, and says
/// whether the list changed. Without a new key file, without such an entry,
/// or where the entry has that key file already, nothing changes.
pub fn update_entry(
    list: &mut Vec<SshParams>,
    host: &str,
    user: &str,
    new_pem_path: Option<String>,
) -> (r: bool)
    ensures
        entries(final(list)@) == updated(
            entries(old(list)@),
            host@,
            user@,
            text::optional_text(new_pem_path),
        ),
        r == update_changes(entries(old(list)@), host@, user@, text::optional_text(new_pem_path)),
        !r ==> entries(final(list)@) == entries(old(list)@),
{
    let at = find_entry(list, host, user);
    if at >= list.len() {
        return false;
    }
    match new_pem_path {
        None => false,
        Some(p) => {
            if text::same(list[at].pem_path.as_str(), p.as_str()) {
                false
            } else {
                list[at].pem_path = p;
                true
            }
        },
    }
}

/// Removes every entry for a host and user, and says whether there was one.
pub fn delete_entry(list: &mut Vec<SshParams>, host: &str, user: &str) -> (r: bool)
    ensures
        entries(final(list)@) == without_key(entries(old(list)@), host@, user@),
        r == (final(list)@.len() != old(list)@.len()),
        r == (position(entries(old(list)@), host@, user@) < old(list)@.len()),
{
    let ghost orig = entries(list@);
    let mut kept: usize = 0;
    let mut seen: Ghost<int> = Ghost(0);
    let mut removed: bool = false;
    while kept < list.len()
        invariant
            0 <= seen@ <= orig.len(),
            kept <= list.len(),
            orig == entries(old(list)@),
            list@.len() - kept == orig.len() - seen@,
            entries(list@).take(kept as int) == without_key(orig.take(seen@), host@, user@),
            entries(list@).skip(kept as int) == orig.skip(seen@),
            removed == (kept < seen@),
            !removed ==> forall|j: int|
                0 <= j < seen@ ==> !has_key(#[trigger] orig[j], host@, user@),
            removed ==> exists|j: int| 0 <= j < seen@ && has_key(#[trigger] orig[j], host@, user@),
        decreases list.len() - kept,
    {
        let ghost cur = entries(list@);
        let ghost head = orig[seen@];
        proof {
            assert(cur.skip(kept as int)[0] == orig.skip(seen@)[0]);
            assert(orig.take(seen@ + 1) =~= orig.take(seen@).push(head));
            orig.take(seen@).lemma_filter_push(head, |e: EntryModel| !has_key(e, host@, user@));
        }
        if is_entry_for(&list[kept], host, user) {
            list.remove(kept);
            removed = true;
            proof {
                assert(entries(list@).skip(kept as int) =~= cur.skip(kept as int).drop_first());
                seen@ = seen@ + 1;
            }
        } else {
            proof {
                assert(cur.skip(kept + 1) =~= cur.skip(kept as int).drop_first());
                seen@ = seen@ + 1;
            }
            kept += 1;
        }
    }
    proof {
        assert(orig.take(seen@) =~= orig);
        if removed {
            lemma_position(orig, host@, user@);
        } else {
            lemma_position_is(orig, host@, user@, orig.len() as int);
        }
    }
    removed
}

/// After the entries for a host and user were removed, the list holds none
/// for them.
pub proof fn lemma_deleted_is_gone(list: Seq<EntryModel>, host: Seq<char>, user: Seq<char>)
    ensures
        position(without_key(list, host, user), host, user) == without_key(
            list,
            host,
            user,
        ).len(),
        without_key(without_key(list, host, user), host, user) == without_key(list, host, user),
{
    let pred = |e: EntryModel| !has_key(e, host, user);
    let rest = without_key(list, host, user);
    assert forall|j: int| 0 <= j < rest.len() implies !has_key(#[trigger] rest[j], host, user) by {
        list.lemma_filter_pred(pred, j);
    }
    lemma_position_is(rest, host, user, rest.len() as int);
    lemma_all_kept(rest, host, user);
}

/// A list without an entry for a host and user loses nothing when the
/// entries for them are removed.
proof fn lemma_all_kept(list: Seq<EntryModel>, host: Seq<char>, user: Seq<char>)
    requires
        forall|j: int| 0 <= j < list.len() ==> !has_key(#[trigger] list[j], host, user),
    ensures
        without_key(list, host, user) == list,
    decreases list.len(),
{
    reveal(Seq::filter);
    if list.len() > 0 {
        let front = list.drop_last();
        assert forall|j: int| 0 <= j < front.len() implies !has_key(
            #[trigger] front[j],
            host,
            user,
        ) by {
            assert(front[j] == list[j]);
        }
        lemma_all_kept(front, host, user);
        assert(!has_key(list[list.len() - 1], host, user));
        assert(front.push(list.last()) =~= list);
    }
}

/// Every entry is at most itself.
pub proof fn lemma_key_le_reflexive(a: EntryModel)
    ensures
        key_le(a, a),
{
    text::lemma_lex_le_reflexive(a.user);
}

/// Of two entries one is at most the other.
pub proof fn lemma_key_le_total(a: EntryModel, b: EntryModel)
    ensures
        key_le(a, b) || key_le(b, a),
{
    text::lemma_lex_le_total(a.user, b.user);
    text::lemma_lex_le_total(a.host, b.host);
}

/// The order of entries is transitive.
pub proof fn lemma_key_le_transitive(a: EntryModel, b: EntryModel, c: EntryModel)
    requires
        key_le(a, b),
        key_le(b, c),
    ensures
        key_le(a, c),
{
    if a.host == b.host && b.host == c.host {
        text::lemma_lex_le_transitive(a.user, b.user, c.user);
    } else if a.host != b.host && b.host != c.host {
        text::lemma_lex_le_transitive(a.host, b.host, c.host);
        if a.host == c.host {
            text::lemma_lex_le_antisymmetric(a.host, b.host);
        }
    }
}

/// Two entries that are each at most the other are for the same host and
/// user.
pub proof fn lemma_key_le_antisymmetric(a: EntryModel, b: EntryModel)
    requires
        key_le(a, b),
        key_le(b, a),
    ensures
        has_key(a, b.host, b.user),
{
    if a.host == b.host {
        text::lemma_lex_le_antisymmetric(a.user, b.user);
    } else {
        text::lemma_lex_le_antisymmetric(a.host, b.host);
    }
}

proof fn lemma_none_with_key(list: Seq<EntryModel>, host: Seq<char>, user: Seq<char>)
    requires
        forall|j: int| 0 <= j < list.len() ==> !has_key(#[trigger] list[j], host, user),
    ensures
        with_key(list, host, user) == Seq::<EntryModel>::empty(),
    decreases list.len(),
{
    reveal(Seq::filter);
    if list.len() > 0 {
        let front = list.drop_last();
        assert forall|j: int| 0 <= j < front.len() implies !has_key(
            #[trigger] front[j],
            host,
            user,
        ) by {
            assert(front[j] == list[j]);
        }
        lemma_none_with_key(front, host, user);
        assert(!has_key(list[list.len() - 1], host, user));
    }
}

/// Every entry from the first that is greater than `item` on is greater than
/// `item`.
proof fn lemma_rest_is_greater(list: Seq<EntryModel>, at: int, item: EntryModel)
    requires
        sorted(list),
        0 <= at <= list.len(),
        at < list.len() ==> !key_le(list[at], item),
    ensures
        forall|j: int| at <= j < list.len() ==> !key_le(#[trigger] list[j], item),
{
    assert forall|j: int| at <= j < list.len() implies !key_le(#[trigger] list[j], item) by {
        if key_le(list[j], item) {
            assert(key_le(list[at], list[j]));
            lemma_key_le_transitive(list[at], list[j], item);
        }
    }
}

/// Putting an entry behind all entries that are at most it, and before the
/// first that is greater, keeps a list in order.
proof fn lemma_insert_keeps_order(list: Seq<EntryModel>, at: int, item: EntryModel)
    requires
        sorted(list),
        0 <= at <= list.len(),
        forall|j: int| 0 <= j < at ==> key_le(#[trigger] list[j], item),
        at < list.len() ==> !key_le(list[at], item),
    ensures
        sorted(list.insert(at, item)),
{
    let out = list.insert(at, item);
    lemma_rest_is_greater(list, at, item);
    assert forall|i: int, j: int| 0 <= i <= j < out.len() implies key_le(
        #[trigger] out[i],
        #[trigger] out[j],
    ) by {
        if i == at {
            if j == at {
                lemma_key_le_reflexive(item);
            } else {
                assert(out[j] == list[j - 1]);
                lemma_key_le_total(item, out[j]);
            }
        } else if i < at {
            assert(out[i] == list[i]);
            if j > at {
                assert(out[j] == list[j - 1]);
            } else if j < at {
                assert(out[j] == list[j]);
            }
        } else {
            assert(out[i] == list[i - 1]);
            assert(out[j] == list[j - 1]);
        }
    }
}

/// Putting an entry behind all entries that are at most it, and before the
/// first that is greater, keeps the entries of each host and user in their
/// order, the new entry last among its own.
proof fn lemma_insert_keeps_groups(
    list: Seq<EntryModel>,
    at: int,
    item: EntryModel,
    host: Seq<char>,
    user: Seq<char>,
)
    requires
        sorted(list),
        0 <= at <= list.len(),
        at < list.len() ==> !key_le(list[at], item),
    ensures
        with_key(list.insert(at, item), host, user) == if has_key(item, host, user) {
            with_key(list, host, user).push(item)
        } else {
            with_key(list, host, user)
        },
{
    let front = list.subrange(0, at);
    let back = list.subrange(at, list.len() as int);
    let pred = |e: EntryModel| has_key(e, host, user);
    assert(list =~= front + back);
    assert(list.insert(at, item) =~= front.push(item) + back);
    Seq::filter_distributes_over_add(front, back, pred);
    Seq::filter_distributes_over_add(front.push(item), back, pred);
    front.lemma_filter_push(item, pred);
    if has_key(item, host, user) {
        lemma_rest_is_greater(list, at, item);
        assert forall|j: int| 0 <= j < back.len() implies !has_key(
            #[trigger] back[j],
            host,
            user,
        ) by {
            assert(back[j] == list[at + j]);
            if has_key(back[j], host, user) {
                lemma_key_le_reflexive(item);
            }
        }
        lemma_none_with_key(back, host, user);
        assert(with_key(list.insert(at, item), host, user) =~= with_key(list, host, user).push(
            item,
        ));
    }
}

/// Putting an entry into a list adds that entry and nothing else.
proof fn lemma_insert_adds_one(list: Seq<EntryModel>, at: int, item: EntryModel)
    requires
        0 <= at <= list.len(),
    ensures
        list.insert(at, item).to_multiset() == list.to_multiset().insert(item),
{
    let front = list.subrange(0, at);
    let back = list.subrange(at, list.len() as int);
    assert(list =~= front + back);
    assert(list.insert(at, item) =~= front.push(item) + back);
    vstd::seq_lib::lemma_multiset_commutative(front, back);
    vstd::seq_lib::lemma_multiset_commutative(front.push(item), back);
    vstd::seq_lib::to_multiset_build(front, item);
    assert(list.insert(at, item).to_multiset() =~= list.to_multiset().insert(item));
}

/// Whether `a` comes at most where `b` comes in the order of entries.
pub fn entry_le(a: &SshParams, b: &SshParams) -> (r: bool)
    ensures
        r == key_le(a@, b@),
{
    if text::same(a.host.as_str(), b.host.as_str()) {
        text::text_le(a.user.as_str(), b.user.as_str())
    } else {
        text::text_le(a.host.as_str(), b.host.as_str())
    }
}

/// Puts a list in order of host and user. The list keeps its entries, each
/// as often as it stood in it, and entries for the same host and user stay in
/// the order in which they stood.
pub fn sort_entries(list: &mut Vec<SshParams>)
    ensures
        sorted(entries(final(list)@)),
        entries(final(list)@).to_multiset() == entries(old(list)@).to_multiset(),
        final(list)@.len() == old(list)@.len(),
        forall|host: Seq<char>, user: Seq<char>| #[trigger]
            with_key(entries(final(list)@), host, user) == with_key(
                entries(old(list)@),
                host,
                user,
            ),
{
    let ghost orig = entries(list@);
    let mut out: Vec<SshParams> = Vec::new();
    proof {
        assert(orig.take(0) =~= Seq::<EntryModel>::empty());
        assert(entries(out@) =~= Seq::<EntryModel>::empty());
    }
    while list.len() > 0
        invariant
            out@.len() + list@.len() == orig.len(),
            entries(list@) == orig.skip(out@.len() as int),
            sorted(entries(out@)),
            entries(out@).to_multiset() == orig.take(out@.len() as int).to_multiset(),
            forall|host: Seq<char>, user: Seq<char>| #[trigger]
                with_key(entries(out@), host, user) == with_key(
                    orig.take(out@.len() as int),
                    host,
                    user,
                ),
        decreases list.len(),
    {
        let ghost done = out@.len() as int;
        let ghost placed = entries(out@);
        proof {
            assert(entries(list@)[0] == list@[0]@);
        }
        let item = list.remove(0);
        proof {
            assert(entries(list@) =~= orig.skip(done).drop_first());
        }
        let mut at: usize = 0;
        while at < out.len() && entry_le(&out[at], &item)
            invariant
                at <= out.len(),
                placed == entries(out@),
                forall|j: int| 0 <= j < at ==> key_le(#[trigger] placed[j], item@),
            decreases out.len() - at,
        {
            at += 1;
        }
        out.insert(at, item);
        proof {
            assert(entries(out@) =~= placed.insert(at as int, item@));
            assert(orig.take(done + 1) =~= orig.take(done).push(item@));
            assert forall|host: Seq<char>, user: Seq<char>| #[trigger]
                with_key(entries(out@), host, user) == with_key(
                    orig.take(done + 1),
                    host,
                    user,
                ) by {
                lemma_insert_keeps_groups(placed, at as int, item@, host, user);
                orig.take(done).lemma_filter_push(item@, |e: EntryModel| has_key(e, host, user));
            }
            lemma_insert_keeps_order(placed, at as int, item@);
            lemma_insert_adds_one(placed, at as int, item@);
            vstd::seq_lib::to_multiset_build(orig.take(done), item@);
        }
    }
    *list = out;
}

/// Adds an entry. Where the list has an entry for the same host and user,
/// the first such entry takes over the new key file instead. The list is
/// then put in order of host and user, entries for the same host and user
/// staying in the order in which they stood.
pub fn add_or_update_entry(list: &mut Vec<SshParams>, new_item: SshParams)
    ensures
        sorted(entries(final(list)@)),
        entries(final(list)@).to_multiset() == upserted(
            entries(old(list)@),
            new_item@,
        ).to_multiset(),
        forall|host: Seq<char>, user: Seq<char>| #[trigger]
            with_key(entries(final(list)@), host, user) == with_key(
                upserted(entries(old(list)@), new_item@),
                host,
                user,
            ),
{
    let at = find_entry(list, new_item.host.as_str(), new_item.user.as_str());
    if at < list.len() {
        list[at].pem_path = new_item.pem_path;
    } else {
        list.push(new_item);
    }
    assert(entries(list@) =~= upserted(entries(old(list)@), new_item@));
    sort_entries(list);
}

pub const SSH_IDENTITY: &'static str = "-i";

pub const SSH_OPTION: &'static str = "-o";

pub const SSH_ACCEPT_NEW: &'static str = "StrictHostKeyChecking=accept-new";

pub const AT: &'static str = "@";

pub const MSG_SPAWN_FAILED: &'static str = "failed to spawn ssh";

pub const MSG_EXITED: &'static str = "ssh exited with status ";

pub const MSG_SEPARATOR: &'static str = ": ";

pub const CODE_NONE: &'static str = "None";

pub const CODE_SOME: &'static str = "Some(";

pub const CODE_CLOSE: &'static str = ")";

/// The arguments of the shell client for running one command on a host.
pub open spec fn once_arguments(
    host: Seq<char>,
    user: Seq<char>,
    pem: Seq<char>,
    cmd: Seq<char>,
) -> Seq<Seq<char>> {
    seq![SSH_IDENTITY@, pem, SSH_OPTION@, SSH_ACCEPT_NEW@, user + AT@ + host, cmd]
}

/// The arguments of the shell client for running one command on a host.
pub fn exec_once_args(host: &str, user: &str, pem: &str, cmd: &str) -> (r: Vec<String>)
    ensures
        text::texts(r@) == once_arguments(host@, user@, pem@, cmd@),
{
    let mut target = text::join(user, AT);
    target.append(host);
    let mut out: Vec<String> = Vec::new();
    out.push(text::owned(SSH_IDENTITY));
    out.push(text::owned(pem));
    out.push(text::owned(SSH_OPTION));
    out.push(text::owned(SSH_ACCEPT_NEW));
    out.push(target);
    out.push(text::owned(cmd));
    out
}

/// What came of running the shell client once.
#[derive(Debug, Clone, PartialEq, Eq)]
pub enum SshRun {
    /// The client could not be started.
    NotStarted,
    /// The client ran. `code` is its exit code, absent where a signal ended
    /// it; `success` says whether it exited with success.
    Finished { success: bool, code: Option<i32>, stdout: String, stderr: String },
}

/// An exit code as it is shown in a report.
pub open spec fn shown_status(code: Option<i32>) -> Seq<char> {
    match code {
        Some(c) => CODE_SOME@ + text::decimal(c as int) + CODE_CLOSE@,
        None => CODE_NONE@,
    }
}

/// The answer to running one command on a host: the command's output where
/// the client succeeded, a report of its exit status and error output where
/// it did not, and a fixed complaint where it could not be started.
pub open spec fn once_answer(run: SshRun) -> Result<Seq<char>, Seq<char>> {
    match run {
        SshRun::NotStarted => Err(MSG_SPAWN_FAILED@),
        SshRun::Finished { success, code, stdout, stderr } => if success {
            Ok(stdout@)
        } else {
            Err(MSG_EXITED@ + shown_status(code) + MSG_SEPARATOR@ + stderr@)
        },
    }
}

/// The answer to running one command on a host, from what came of running
/// the shell client.
pub fn exec_once_via_system_ssh(run: SshRun) -> (r: Result<String, String>)
    ensures
        text::result_text(r) == once_answer(run),
{
    match run {
        SshRun::NotStarted => Err(text::owned(MSG_SPAWN_FAILED)),
        SshRun::Finished { success, code, stdout, stderr } => {
            if success {
                Ok(stdout)
            } else {
                let mut message = text::owned(MSG_EXITED);
                match code {
                    Some(c) => {
                        message.append(CODE_SOME);
                        text::push_decimal(&mut message, c as i64);
                        message.append(CODE_CLOSE);
                    },
                    None => {
                        message.append(CODE_NONE);
                    },
                }
                message.append(MSG_SEPARATOR);
                message.append(stderr.as_str());
                assert(message@ =~= MSG_EXITED@ + shown_status(code) + MSG_SEPARATOR@ + stderr@);
                Err(message)
            }
        },
    }
}

} // verus!
