//! Projects: what a new project looks like and which environments it may
//! name.

use crate::commands::deployment;
use crate::text;
use vstd::prelude::*;

verus! {

pub const ENV_LOCAL: &'static str = "local";

pub const ENV_EC2: &'static str = "ec2";

pub const MODE_ALL_IN_ONE: &'static str = "all-in-one";

pub const WORKDIR_DEFAULT: &'static str = "arfni-deploy";

pub const MSG_BAD_ENVIRONMENT: &'static str = "환경은 'local' 또는 'ec2'여야 합니다";

pub const MSG_SERVER_REQUIRED: &'static str = "EC2 환경에서는 서버 ID가 필요합니다";

pub const STACK_HEAD: &'static str = "apiVersion: v0.1\nname: ";

pub const STACK_LOCAL_TAIL: &'static str =
    "\n\ntargets:\n  local:\n    type: docker-desktop\n\nservices:\n  # 서비스를 여기에 추가하세요\n";

pub const STACK_EC2_TAIL: &'static str =
    "\n\ntargets:\n  ec2:\n    type: ec2.ssh\n    # EC2 서버 정보는 프론트엔드에서 추가됩니다\n\nservices:\n  # 서비스를 여기에 추가하세요\n";

/// A project as the catalogue records it.
#[derive(Debug, Clone, PartialEq, Eq)]
pub struct Project {
    pub id: String,
    pub name: String,
    pub path: String,
    pub environment: String,
    pub ec2_server_id: Option<String>,
    pub mode: Option<String>,
    pub workdir: Option<String>,
    pub created_at: String,
    pub updated_at: String,
    pub stack_yaml_path: Option<String>,
    pub description: Option<String>,
}

/// The mathematical content of a [`Project`].
pub struct ProjectModel {
    pub id: Seq<char>,
    pub name: Seq<char>,
    pub path: Seq<char>,
    pub environment: Seq<char>,
    pub ec2_server_id: Option<Seq<char>>,
    pub mode: Option<Seq<char>>,
    pub workdir: Option<Seq<char>>,
    pub created_at: Seq<char>,
    pub updated_at: Seq<char>,
    pub stack_yaml_path: Option<Seq<char>>,
    pub description: Option<Seq<char>>,
}

impl View for Project {
    type V = ProjectModel;

    open spec fn view(&self) -> ProjectModel {
        ProjectModel {
            id: self.id@,
            name: self.name@,
            path: self.path@,
            environment: self.environment@,
            ec2_server_id: text::optional_text(self.ec2_server_id),
            mode: text::optional_text(self.mode),
            workdir: text::optional_text(self.workdir),
            created_at: self.created_at@,
            updated_at: self.updated_at@,
            stack_yaml_path: text::optional_text(self.stack_yaml_path),
            description: text::optional_text(self.description),
        }
    }
}

/// A connection between two nodes of a project's canvas.
#[derive(Debug, Clone, PartialEq, Eq)]
pub struct CanvasEdge {
    pub id: String,
    pub source: String,
    pub target: String,
}

/// The mathematical content of a [`CanvasEdge`].
pub struct EdgeModel {
    pub id: Seq<char>,
    pub source: Seq<char>,
    pub target: Seq<char>,
}

impl View for CanvasEdge {
    type V = EdgeModel;

    open spec fn view(&self) -> EdgeModel {
        EdgeModel { id: self.id@, source: self.source@, target: self.target@ }
    }
}

/// What is wrong with the environment named for a new project, if anything:
/// it must be `local` or `ec2`, and `ec2` needs a server.
pub open spec fn environment_complaint(environment: Seq<char>, has_server: bool) -> Option<
    Seq<char>,
> {
    if environment != ENV_LOCAL@ && environment != ENV_EC2@ {
        Some(MSG_BAD_ENVIRONMENT@)
    } else if environment == ENV_EC2@ && !has_server {
        Some(MSG_SERVER_REQUIRED@)
    } else {
        None
    }
}

/// Checks the environment named for a new project.
pub fn validate_environment(environment: &str, ec2_server_id: &Option<String>) -> (r: Result<
    (),
    String,
>)
    ensures
        match r {
            Ok(()) => environment_complaint(environment@, ec2_server_id is Some).is_none(),
            Err(complaint) => environment_complaint(environment@, ec2_server_id is Some) == Some(
                complaint@,
            ),
        },
{
    let local = text::same(environment, ENV_LOCAL);
    let ec2 = text::same(environment, ENV_EC2);
    if !local && !ec2 {
        return Err(text::owned(MSG_BAD_ENVIRONMENT));
    }
    if ec2 && ec2_server_id.is_none() {
        return Err(text::owned(MSG_SERVER_REQUIRED));
    }
    Ok(())
}

/// The record of a project created at `created_at` under the identifier
/// `id`. A project on EC2 starts in the all-in-one mode with the default
/// working directory; a local project has neither.
pub open spec fn created_project(
    id: Seq<char>,
    created_at: Seq<char>,
    name: Seq<char>,
    path: Seq<char>,
    stack_yaml_path: Seq<char>,
    environment: Seq<char>,
    ec2_server_id: Option<Seq<char>>,
    description: Option<Seq<char>>,
) -> ProjectModel {
    ProjectModel {
        id,
        name,
        path,
        environment,
        ec2_server_id,
        mode: if environment == ENV_EC2@ {
            Some(MODE_ALL_IN_ONE@)
        } else {
            None
        },
        workdir: if environment == ENV_EC2@ {
            Some(WORKDIR_DEFAULT@)
        } else {
            None
        },
        created_at,
        updated_at: created_at,
        stack_yaml_path: Some(stack_yaml_path),
        description,
    }
}

/// The record of a new project.
pub fn new_project(
    id: String,
    created_at: String,
    name: String,
    path: String,
    stack_yaml_path: String,
    environment: String,
    ec2_server_id: Option<String>,
    description: Option<String>,
) -> (r: Project)
    ensures
        r@ == created_project(
            id@,
            created_at@,
            name@,
            path@,
            stack_yaml_path@,
            environment@,
            text::optional_text(ec2_server_id),
            text::optional_text(description),
        ),
{
    let on_ec2 = text::same(environment.as_str(), ENV_EC2);
    let mode = if on_ec2 {
        Some(text::owned(MODE_ALL_IN_ONE))
    } else {
        None
    };
    let workdir = if on_ec2 {
        Some(text::owned(WORKDIR_DEFAULT))
    } else {
        None
    };
    let updated_at = created_at.clone();
    Project {
        id,
        name,
        path,
        environment,
        ec2_server_id,
        mode,
        workdir,
        created_at,
        updated_at,
        stack_yaml_path: Some(stack_yaml_path),
        description,
    }
}

/// The stack description with which a project starts: a local project
/// targets the local Docker, any other project an EC2 host.
pub open spec fn initial_stack(name: Seq<char>, environment: Seq<char>) -> Seq<char> {
    if environment == ENV_LOCAL@ {
        STACK_HEAD@ + name + STACK_LOCAL_TAIL@
    } else {
        STACK_HEAD@ + name + STACK_EC2_TAIL@
    }
}

/// The stack description with which a project starts.
pub fn initial_stack_yaml(name: &str, environment: &str) -> (r: String)
    ensures
        r@ == initial_stack(name@, environment@),
{
    let mut out = text::join(STACK_HEAD, name);
    if text::same(environment, ENV_LOCAL) {
        out.append(STACK_LOCAL_TAIL);
    } else {
        out.append(STACK_EC2_TAIL);
    }
    out
}

/// The stack description with which a project starts names the four keys
/// that a valid stack description must name, whatever the project is called.
pub proof fn lemma_initial_stack_is_valid(name: Seq<char>, environment: Seq<char>)
    ensures
        deployment::stack_yaml_complaint(initial_stack(name, environment)).is_none(),
{
    reveal_strlit("apiVersion: v0.1\nname: ");
    reveal_strlit(
        "\n\ntargets:\n  local:\n    type: docker-desktop\n\nservices:\n  # 서비스를 여기에 추가하세요\n",
    );
    reveal_strlit(
        "\n\ntargets:\n  ec2:\n    type: ec2.ssh\n    # EC2 서버 정보는 프론트엔드에서 추가됩니다\n\nservices:\n  # 서비스를 여기에 추가하세요\n",
    );
    reveal_strlit("apiVersion:");
    reveal_strlit("name:");
    reveal_strlit("targets:");
    reveal_strlit("services:");
    let head = STACK_HEAD@;
    let tail = if environment == ENV_LOCAL@ {
        STACK_LOCAL_TAIL@
    } else {
        STACK_EC2_TAIL@
    };
    let services_at: int = if environment == ENV_LOCAL@ {
        46
    } else {
        68
    };
    assert(head.subrange(0, 11) =~= deployment::KEY_API_VERSION@);
    assert(text::occurs_at(head, deployment::KEY_API_VERSION@, 0));
    assert(head.subrange(17, 22) =~= deployment::KEY_NAME@);
    assert(text::occurs_at(head, deployment::KEY_NAME@, 17));
    assert(tail.subrange(2, 10) =~= deployment::KEY_TARGETS@);
    assert(text::occurs_at(tail, deployment::KEY_TARGETS@, 2));
    assert(tail.subrange(services_at, services_at + 9) =~= deployment::KEY_SERVICES@);
    assert(text::occurs_at(tail, deployment::KEY_SERVICES@, services_at));
    assert(initial_stack(name, environment) =~= head + (name + tail));
    text::lemma_contains_in_front(head, name + tail, deployment::KEY_API_VERSION@);
    text::lemma_contains_in_front(head, name + tail, deployment::KEY_NAME@);
    text::lemma_contains_behind(head + name, tail, deployment::KEY_TARGETS@);
    text::lemma_contains_behind(head + name, tail, deployment::KEY_SERVICES@);
    assert(initial_stack(name, environment) =~= (head + name) + tail);
}

} // verus!
