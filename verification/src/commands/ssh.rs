//! The catalogue of EC2 servers: what a new record looks like, which columns
//! an update touches, and how the catalogue's answers are reported.

use crate::features::ssh_exec::entries;
use crate::features::ssh_exec::EntryModel;
use crate::features::ssh_exec::SshParams;
use crate::text;
use vstd::prelude::*;

verus! {

pub const COLUMN_NAME: &'static str = "name";

pub const COLUMN_HOST: &'static str = "host";

pub const COLUMN_USER: &'static str = "user";

pub const COLUMN_PEM_PATH: &'static str = "pem_path";

pub const UNIQUE_VIOLATION: &'static str = "UNIQUE constraint failed";

pub const MSG_DUPLICATE: &'static str = "이미 존재하는 서버입니다: ";

pub const MSG_CREATE_FAILED: &'static str = "EC2 서버 생성 실패: ";

pub const MSG_NO_SUCH_SERVER: &'static str = "존재하지 않는 서버입니다";

pub const AT: &'static str = "@";

/// An EC2 server as the catalogue records it.
#[derive(Debug, Clone, PartialEq, Eq)]
pub struct EC2Server {
    pub id: String,
    pub name: String,
    pub host: String,
    pub user: String,
    pub pem_path: String,
    pub created_at: String,
    pub updated_at: String,
    pub last_connected_at: Option<String>,
}

/// The mathematical content of an [`EC2Server`].
pub struct ServerModel {
    pub id: Seq<char>,
    pub name: Seq<char>,
    pub host: Seq<char>,
    pub user: Seq<char>,
    pub pem_path: Seq<char>,
    pub created_at: Seq<char>,
    pub updated_at: Seq<char>,
    pub last_connected_at: Option<Seq<char>>,
}

impl View for EC2Server {
    type V = ServerModel;

    open spec fn view(&self) -> ServerModel {
        ServerModel {
            id: self.id@,
            name: self.name@,
            host: self.host@,
            user: self.user@,
            pem_path: self.pem_path@,
            created_at: self.created_at@,
            updated_at: self.updated_at@,
            last_connected_at: text::optional_text(self.last_connected_at),
        }
    }
}

/// A command to run once on a remote host.
#[derive(Debug, Clone, PartialEq, Eq)]
pub struct SshSimpleParams {
    pub host: String,
    pub user: String,
    pub pem_path: String,
    pub cmd: String,
}

/// What is asked for when a server is added to the catalogue.
#[derive(Debug, Clone, PartialEq, Eq)]
pub struct CreateEC2ServerParams {
    pub name: String,
    pub host: String,
    pub user: String,
    pub pem_path: String,
}

/// What is asked for when a server's record is changed: the record's
/// identifier and, for each field to change, its new value.
#[derive(Debug, Clone, PartialEq, Eq)]
pub struct UpdateEC2ServerParams {
    pub id: String,
    pub name: Option<String>,
    pub host: Option<String>,
    pub user: Option<String>,
    pub pem_path: Option<String>,
}

/// The host and user whose server is to be deleted.
#[derive(Debug, Clone, PartialEq, Eq)]
pub struct DeletePayload {
    pub host: String,
    pub user: String,
}

/// The mathematical content of a [`DeletePayload`].
pub struct DeleteModel {
    pub host: Seq<char>,
    pub user: Seq<char>,
}

impl View for DeletePayload {
    type V = DeleteModel;

    open spec fn view(&self) -> DeleteModel {
        DeleteModel { host: self.host@, user: self.user@ }
    }
}

/// The record of a server added at `created_at` under the identifier `id`:
/// never connected, and last changed when it was created.
pub open spec fn created_server(
    id: Seq<char>,
    created_at: Seq<char>,
    name: Seq<char>,
    host: Seq<char>,
    user: Seq<char>,
    pem_path: Seq<char>,
) -> ServerModel {
    ServerModel {
        id,
        name,
        host,
        user,
        pem_path,
        created_at,
        updated_at: created_at,
        last_connected_at: None,
    }
}

/// The record of a new server.
pub fn new_ec2_server(id: String, created_at: String, params: CreateEC2ServerParams) -> (r:
    EC2Server)
    ensures
        r@ == created_server(
            id@,
            created_at@,
            params.name@,
            params.host@,
            params.user@,
            params.pem_path@,
        ),
{
    let updated_at = created_at.clone();
    EC2Server {
        id,
        name: params.name,
        host: params.host,
        user: params.user,
        pem_path: params.pem_path,
        created_at,
        updated_at,
        last_connected_at: None,
    }
}

/// What is reported when the catalogue refuses a new server: a server for
/// the same user and host where the catalogue speaks of a violated
/// uniqueness, the catalogue's own words otherwise.
pub open spec fn create_failure(refusal: Seq<char>, user: Seq<char>, host: Seq<char>) -> Seq<char> {
    if text::contains(refusal, UNIQUE_VIOLATION@) {
        MSG_DUPLICATE@ + user + AT@ + host
    } else {
        MSG_CREATE_FAILED@ + refusal
    }
}

/// What is reported when the catalogue refuses a new server.
pub fn create_failure_message(refusal: &str, user: &str, host: &str) -> (r: String)
    ensures
        r@ == create_failure(refusal@, user@, host@),
{
    if text::contains_str(refusal, UNIQUE_VIOLATION) {
        let mut message = text::join(MSG_DUPLICATE, user);
        message.append(AT);
        message.append(host);
        message
    } else {
        text::join(MSG_CREATE_FAILED, refusal)
    }
}

/// One column of a record and its new value.
#[derive(Debug, Clone, PartialEq, Eq)]
pub struct FieldUpdate {
    pub column: String,
    pub value: String,
}

/// The mathematical content of a [`FieldUpdate`].
pub struct FieldUpdateModel {
    pub column: Seq<char>,
    pub value: Seq<char>,
}

impl View for FieldUpdate {
    type V = FieldUpdateModel;

    open spec fn view(&self) -> FieldUpdateModel {
        FieldUpdateModel { column: self.column@, value: self.value@ }
    }
}

/// The updates of a list, each by its content.
pub open spec fn updates(list: Seq<FieldUpdate>) -> Seq<FieldUpdateModel> {
    list.map_values(|u: FieldUpdate| u@)
}

/// The update of one column, if a new value is given for it.
pub open spec fn column_update(column: Seq<char>, value: Option<Seq<char>>) -> Seq<
    FieldUpdateModel,
> {
    match value {
        Some(v) => seq![FieldUpdateModel { column, value: v }],
        None => seq![],
    }
}

/// The column updates that a change asks for, in the order name, host, user,
/// key file.
pub open spec fn planned(params: UpdateEC2ServerParams) -> Seq<FieldUpdateModel> {
    column_update(COLUMN_NAME@, text::optional_text(params.name)) + column_update(
        COLUMN_HOST@,
        text::optional_text(params.host),
    ) + column_update(COLUMN_USER@, text::optional_text(params.user)) + column_update(
        COLUMN_PEM_PATH@,
        text::optional_text(params.pem_path),
    )
}

fn plan_column(plan: &mut Vec<FieldUpdate>, column: &str, value: &Option<String>)
    ensures
        updates(final(plan)@) == updates(old(plan)@) + column_update(
            column@,
            text::optional_text(*value),
        ),
{
    match value {
        Some(v) => {
            plan.push(FieldUpdate { column: text::owned(column), value: v.clone() });
        },
        None => {},
    }
}

/// The column updates that a change asks for.
pub fn planned_updates(params: &UpdateEC2ServerParams) -> (r: Vec<FieldUpdate>)
    ensures
        updates(r@) == planned(*params),
{
    let mut plan: Vec<FieldUpdate> = Vec::new();
    plan_column(&mut plan, COLUMN_NAME, &params.name);
    plan_column(&mut plan, COLUMN_HOST, &params.host);
    plan_column(&mut plan, COLUMN_USER, &params.user);
    plan_column(&mut plan, COLUMN_PEM_PATH, &params.pem_path);
    plan
}

/// The servers of a list, each by its content.
pub open spec fn servers(list: Seq<EC2Server>) -> Seq<ServerModel> {
    list.map_values(|s: EC2Server| s@)
}

/// A server as a remote target.
pub open spec fn as_target(server: ServerModel) -> EntryModel {
    EntryModel { host: server.host, user: server.user, pem_path: server.pem_path }
}

/// The servers of the catalogue as remote targets, in the catalogue's order.
pub fn ec2_read_entry(list: Vec<EC2Server>) -> (r: Vec<SshParams>)
    ensures
        entries(r@) == servers(list@).map_values(|s: ServerModel| as_target(s)),
{
    let ghost all = servers(list@);
    let ghost conv = |s: ServerModel| as_target(s);
    let mut list = list;
    let mut out: Vec<SshParams> = Vec::new();
    while list.len() > 0
        invariant
            out@.len() + list@.len() == all.len(),
            servers(list@) == all.skip(out@.len() as int),
            conv == |s: ServerModel| as_target(s),
            entries(out@) == all.take(out@.len() as int).map_values(conv),
        decreases list.len(),
    {
        let ghost done = out@.len() as int;
        let ghost before = entries(out@);
        proof {
            assert(servers(list@)[0] == list@[0]@);
        }
        let server = list.remove(0);
        proof {
            assert(servers(list@) =~= all.skip(done).drop_first());
        }
        out.push(SshParams { host: server.host, user: server.user, pem_path: server.pem_path });
        proof {
            assert(entries(out@) =~= before.push(as_target(server@)));
        }
    }
    out
}

/// The answer to a request to delete the server of a host and user, from the
/// number of records that the catalogue removed: whether there was one.
pub fn ec2_delete_entry(removed: usize) -> (r: Result<bool, String>)
    ensures
        r == Ok::<bool, String>(removed > 0),
{
    Ok(removed > 0)
}

/// The answer to a request to delete a server by its identifier, from the
/// number of records that the catalogue removed: a request that removed
/// none named a server that does not exist.
pub fn delete_ec2_server(removed: usize) -> (r: Result<(), String>)
    ensures
        match r {
            Ok(()) => removed > 0,
            Err(reason) => removed == 0 && reason@ == MSG_NO_SUCH_SERVER@,
        },
{
    if removed == 0 {
        Err(text::owned(MSG_NO_SUCH_SERVER))
    } else {
        Ok(())
    }
}

} // verus!
