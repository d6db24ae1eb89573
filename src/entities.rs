use vstd::prelude::*;

verus! {

/// The level of access a user holds on a resource, ordered
/// `Nothing < Read < Execute < Update`.
#[derive(Clone, Copy, Debug, PartialEq, Eq, Structural)]
pub enum PermissionLevel {
    Nothing,
    Read,
    Execute,
    Update,
}

impl PermissionLevel {
    pub open spec fn rank(self) -> nat {
        match self {
            PermissionLevel::Nothing => 0,
            PermissionLevel::Read => 1,
            PermissionLevel::Execute => 2,
            PermissionLevel::Update => 3,
        }
    }

    /// Whether this level grants everything that `required` grants.
    pub fn at_least(&self, required: PermissionLevel) -> (r: bool)
        ensures
            r == (self.rank() >= required.rank()),
    {
        let a: u8 = match self {
            PermissionLevel::Nothing => 0,
            PermissionLevel::Read => 1,
            PermissionLevel::Execute => 2,
            PermissionLevel::Update => 3,
        };
        let b: u8 = match required {
            PermissionLevel::Nothing => 0,
            PermissionLevel::Read => 1,
            PermissionLevel::Execute => 2,
            PermissionLevel::Update => 3,
        };
        a >= b
    }
}

/// Reachability of a server as last seen by the poller.
#[derive(Clone, Copy, Debug, PartialEq, Eq, Structural)]
pub enum ServerStatus {
    Healthy,
    NotOk,
    Disabled,
}

/// Severity derived from stats thresholds.
#[derive(Clone, Copy, Debug, PartialEq, Eq, Structural)]
pub enum SeverityLevel {
    Normal,
    Warning,
    Critical,
}

/// State of a container as reported by the agent.
#[derive(Clone, Copy, Debug, PartialEq, Eq, Structural)]
pub enum DockerContainerState {
    Unknown,
    NotDeployed,
    Created,
    Restarting,
    Running,
    Removing,
    Paused,
    Exited,
    Dead,
}

/// The user on whose behalf a request runs.
pub struct User {
    pub id: String,
    pub is_admin: bool,
    pub create_server_permissions: bool,
}

/// The level that `user` holds in a permissions list: the first entry for
/// the user, or `Nothing` when there is no entry.
pub open spec fn level_in(perms: Seq<(String, PermissionLevel)>, user: Seq<char>) -> PermissionLevel
    decreases perms.len(),
{
    if perms.len() == 0 {
        PermissionLevel::Nothing
    } else if perms[0].0@ == user {
        perms[0].1
    } else {
        level_in(perms.drop_first(), user)
    }
}

/// Whether `user` may act at `level` on a resource with `perms`: admins
/// always may.
pub open spec fn permitted(
    perms: Seq<(String, PermissionLevel)>,
    user: User,
    level: PermissionLevel,
) -> bool {
    user.is_admin || level_in(perms, user.id@).rank() >= level.rank()
}

/// The level that `user_id` holds in `perms`.
pub fn get_user_permissions(perms: &Vec<(String, PermissionLevel)>, user_id: &String) -> (r:
    PermissionLevel)
    ensures
        r == level_in(perms@, user_id@),
{
    let mut i: usize = 0;
    assert(perms@.subrange(0, perms@.len() as int) =~= perms@);
    while i < perms.len()
        invariant
            i <= perms@.len(),
            level_in(perms@, user_id@) == level_in(perms@.subrange(i as int, perms@.len() as int), user_id@),
        decreases perms@.len() - i,
    {
        let ghost rest = perms@.subrange(i as int, perms@.len() as int);
        assert(rest.drop_first() =~= perms@.subrange(i + 1, perms@.len() as int));
        if perms[i].0 == *user_id {
            return perms[i].1;
        }
        i = i + 1;
    }
    PermissionLevel::Nothing
}

/// Whether `user` may act at `level` on a resource with `perms`.
pub fn has_permission(
    perms: &Vec<(String, PermissionLevel)>,
    user: &User,
    level: PermissionLevel,
) -> (r: bool)
    ensures
        r == permitted(perms@, *user, level),
{
    if user.is_admin {
        return true;
    }
    let l = get_user_permissions(perms, &user.id);
    l.at_least(level)
}

/// Copies a permissions list entry by entry.
pub fn clone_permissions(perms: &Vec<(String, PermissionLevel)>) -> (r: Vec<(String, PermissionLevel)>)
    ensures
        r@ == perms@,
{
    let mut out: Vec<(String, PermissionLevel)> = Vec::new();
    let mut i: usize = 0;
    while i < perms.len()
        invariant
            i <= perms@.len(),
            out@ == perms@.subrange(0, i as int),
        decreases perms@.len() - i,
    {
        out.push((perms[i].0.clone(), perms[i].1));
        i = i + 1;
        assert(out@ =~= perms@.subrange(0, i as int));
    }
    assert(out@ =~= perms@);
    out
}

/// Copies an optional string.
pub fn clone_opt(s: &Option<String>) -> (r: Option<String>)
    ensures
        r == *s,
{
    match s {
        Some(v) => Some(v.clone()),
        None => None,
    }
}

/// Copies a list of strings.
pub fn clone_strings(v: &Vec<String>) -> (r: Vec<String>)
    ensures
        r@ == v@,
{
    let mut out: Vec<String> = Vec::new();
    let mut i: usize = 0;
    while i < v.len()
        invariant
            i <= v@.len(),
            out@ == v@.subrange(0, i as int),
        decreases v@.len() - i,
    {
        out.push(v[i].clone());
        i = i + 1;
        assert(out@ =~= v@.subrange(0, i as int));
    }
    assert(out@ =~= v@);
    out
}

/// A host running the agent.
pub struct Server {
    pub id: String,
    pub name: String,
    pub address: String,
    pub enabled: bool,
    pub region: Option<String>,
    pub permissions: Vec<(String, PermissionLevel)>,
    pub created_at: i64,
    pub updated_at: i64,
}

impl Server {
    /// Equal field by field, lists compared by their contents.
    pub open spec fn same_as(self, o: Server) -> bool {
        &&& self.id == o.id
        &&& self.name == o.name
        &&& self.address == o.address
        &&& self.enabled == o.enabled
        &&& self.region == o.region
        &&& self.permissions@ == o.permissions@
        &&& self.created_at == o.created_at
        &&& self.updated_at == o.updated_at
    }

    pub fn duplicate(&self) -> (r: Server)
        ensures
            r.same_as(*self),
    {
        let permissions = clone_permissions(&self.permissions);
        Server {
            id: self.id.clone(),
            name: self.name.clone(),
            address: self.address.clone(),
            enabled: self.enabled,
            region: clone_opt(&self.region),
            permissions,
            created_at: self.created_at,
            updated_at: self.updated_at,
        }
    }
}

/// Where a deployment's image comes from.
pub enum DeploymentImage {
    /// The image of a build, at `version` or else at the build's own version.
    Build { build_id: String, version: Option<String> },
    /// A literal image reference.
    Image { image: String },
}

impl DeploymentImage {
    pub fn duplicate(&self) -> (r: DeploymentImage)
        ensures
            r == *self,
    {
        match self {
            DeploymentImage::Build { build_id, version } => DeploymentImage::Build {
                build_id: build_id.clone(),
                version: clone_opt(version),
            },
            DeploymentImage::Image { image } => DeploymentImage::Image { image: image.clone() },
        }
    }
}

/// A container pinned to a server.
pub struct Deployment {
    pub id: String,
    pub name: String,
    pub server_id: String,
    pub image: DeploymentImage,
    pub docker_account: String,
    pub termination_signal: String,
    pub termination_timeout: i32,
    pub extra_args: Vec<String>,
    pub permissions: Vec<(String, PermissionLevel)>,
}

impl Deployment {
    /// Equal field by field, lists compared by their contents.
    pub open spec fn same_as(self, o: Deployment) -> bool {
        &&& self.id == o.id
        &&& self.name == o.name
        &&& self.server_id == o.server_id
        &&& self.image == o.image
        &&& self.docker_account == o.docker_account
        &&& self.termination_signal == o.termination_signal
        &&& self.termination_timeout == o.termination_timeout
        &&& self.extra_args@ == o.extra_args@
        &&& self.permissions@ == o.permissions@
    }

    pub fn duplicate(&self) -> (r: Deployment)
        ensures
            r.same_as(*self),
    {
        let permissions = clone_permissions(&self.permissions);
        let extra_args = clone_strings(&self.extra_args);
        Deployment {
            id: self.id.clone(),
            name: self.name.clone(),
            server_id: self.server_id.clone(),
            image: self.image.duplicate(),
            docker_account: self.docker_account.clone(),
            termination_signal: self.termination_signal.clone(),
            termination_timeout: self.termination_timeout,
            extra_args,
            permissions,
        }
    }
}

/// A build whose image deployments may reference.
pub struct Build {
    pub id: String,
    pub name: String,
    pub image_name: String,
    pub version: String,
    pub docker_account: String,
    pub permissions: Vec<(String, PermissionLevel)>,
}

/// One stage of a procedure.
pub struct ProcedureStage {
    pub operation: String,
    pub target_id: String,
}

impl ProcedureStage {
    pub fn duplicate(&self) -> (r: ProcedureStage)
        ensures
            r == *self,
    {
        ProcedureStage { operation: self.operation.clone(), target_id: self.target_id.clone() }
    }
}

/// A named ordered sequence of stages.
pub struct Procedure {
    pub id: String,
    pub name: String,
    pub stages: Vec<ProcedureStage>,
    pub permissions: Vec<(String, PermissionLevel)>,
    pub created_at: i64,
    pub updated_at: i64,
}

impl Procedure {
    /// Equal field by field, lists compared by their contents.
    pub open spec fn same_as(self, o: Procedure) -> bool {
        &&& self.id == o.id
        &&& self.name == o.name
        &&& self.stages@ == o.stages@
        &&& self.permissions@ == o.permissions@
        &&& self.created_at == o.created_at
        &&& self.updated_at == o.updated_at
    }

    pub fn duplicate(&self) -> (r: Procedure)
        ensures
            r.same_as(*self),
    {
        let mut stages: Vec<ProcedureStage> = Vec::new();
        let mut i: usize = 0;
        while i < self.stages.len()
            invariant
                i <= self.stages@.len(),
                stages@ == self.stages@.subrange(0, i as int),
            decreases self.stages@.len() - i,
        {
            stages.push(self.stages[i].duplicate());
            i = i + 1;
            assert(stages@ =~= self.stages@.subrange(0, i as int));
        }
        assert(stages@ =~= self.stages@);
        Procedure {
            id: self.id.clone(),
            name: self.name.clone(),
            stages,
            permissions: clone_permissions(&self.permissions),
            created_at: self.created_at,
            updated_at: self.updated_at,
        }
    }
}

/// What the poller last saw of a server.
pub struct CachedStatus {
    pub status: ServerStatus,
    pub version: String,
    /// Whether the last poll returned a stats snapshot.
    pub has_stats: bool,
}

} // verus!
