use vstd::prelude::*;

verus! {

/// The server actions that may be in flight.
#[derive(Clone, Copy, Debug, PartialEq, Eq, Structural)]
pub enum ServerVerb {
    Pinging,
    PruningNetworks,
    PruningImages,
    PruningContainers,
    StoppingContainers,
}

/// The deployment actions that may be in flight.
#[derive(Clone, Copy, Debug, PartialEq, Eq, Structural)]
pub enum DeploymentVerb {
    Deploying,
    Starting,
    Stopping,
    Removing,
    Pulling,
    Recloning,
}

/// One flag per server action; a server is busy while any is set.
#[derive(Clone, Copy, Debug, PartialEq, Eq, Structural)]
pub struct ServerActionState {
    pub pinging: bool,
    pub pruning_networks: bool,
    pub pruning_images: bool,
    pub pruning_containers: bool,
    pub stopping_containers: bool,
}

/// One flag per deployment action; a deployment is busy while any is set.
#[derive(Clone, Copy, Debug, PartialEq, Eq, Structural)]
pub struct DeploymentActionState {
    pub deploying: bool,
    pub starting: bool,
    pub stopping: bool,
    pub removing: bool,
    pub pulling: bool,
    pub recloning: bool,
}

pub open spec fn count(b: bool) -> nat {
    if b {
        1
    } else {
        0
    }
}

impl ServerActionState {
    pub open spec fn flag(self, v: ServerVerb) -> bool {
        match v {
            ServerVerb::Pinging => self.pinging,
            ServerVerb::PruningNetworks => self.pruning_networks,
            ServerVerb::PruningImages => self.pruning_images,
            ServerVerb::PruningContainers => self.pruning_containers,
            ServerVerb::StoppingContainers => self.stopping_containers,
        }
    }

    pub open spec fn is_busy(self) -> bool {
        self.pinging || self.pruning_networks || self.pruning_images || self.pruning_containers
            || self.stopping_containers
    }

    /// How many flags are set.
    pub open spec fn flags_set(self) -> nat {
        count(self.pinging) + count(self.pruning_networks) + count(self.pruning_images) + count(
            self.pruning_containers,
        ) + count(self.stopping_containers)
    }

    /// No flag set.
    pub fn idle() -> (r: Self)
        ensures
            !r.is_busy(),
            r.flags_set() == 0,
    {
        ServerActionState {
            pinging: false,
            pruning_networks: false,
            pruning_images: false,
            pruning_containers: false,
            stopping_containers: false,
        }
    }

    pub fn busy(&self) -> (r: bool)
        ensures
            r == self.is_busy(),
    {
        self.pinging || self.pruning_networks || self.pruning_images || self.pruning_containers
            || self.stopping_containers
    }

    /// Sets the flag of `v` to `on`, leaving the others.
    pub fn set(&mut self, v: ServerVerb, on: bool)
        ensures
            final(self).flag(v) == on,
            forall|w: ServerVerb| w != v ==> final(self).flag(w) == old(self).flag(w),
    {
        match v {
            ServerVerb::Pinging => self.pinging = on,
            ServerVerb::PruningNetworks => self.pruning_networks = on,
            ServerVerb::PruningImages => self.pruning_images = on,
            ServerVerb::PruningContainers => self.pruning_containers = on,
            ServerVerb::StoppingContainers => self.stopping_containers = on,
        }
    }
}

impl DeploymentActionState {
    pub open spec fn flag(self, v: DeploymentVerb) -> bool {
        match v {
            DeploymentVerb::Deploying => self.deploying,
            DeploymentVerb::Starting => self.starting,
            DeploymentVerb::Stopping => self.stopping,
            DeploymentVerb::Removing => self.removing,
            DeploymentVerb::Pulling => self.pulling,
            DeploymentVerb::Recloning => self.recloning,
        }
    }

    pub open spec fn is_busy(self) -> bool {
        self.deploying || self.starting || self.stopping || self.removing || self.pulling
            || self.recloning
    }

    /// How many flags are set.
    pub open spec fn flags_set(self) -> nat {
        count(self.deploying) + count(self.starting) + count(self.stopping) + count(self.removing)
            + count(self.pulling) + count(self.recloning)
    }

    /// No flag set.
    pub fn idle() -> (r: Self)
        ensures
            !r.is_busy(),
            r.flags_set() == 0,
    {
        DeploymentActionState {
            deploying: false,
            starting: false,
            stopping: false,
            removing: false,
            pulling: false,
            recloning: false,
        }
    }

    pub fn busy(&self) -> (r: bool)
        ensures
            r == self.is_busy(),
    {
        self.deploying || self.starting || self.stopping || self.removing || self.pulling
            || self.recloning
    }

    /// Sets the flag of `v` to `on`, leaving the others.
    pub fn set(&mut self, v: DeploymentVerb, on: bool)
        ensures
            final(self).flag(v) == on,
            forall|w: DeploymentVerb| w != v ==> final(self).flag(w) == old(self).flag(w),
    {
        match v {
            DeploymentVerb::Deploying => self.deploying = on,
            DeploymentVerb::Starting => self.starting = on,
            DeploymentVerb::Stopping => self.stopping = on,
            DeploymentVerb::Removing => self.removing = on,
            DeploymentVerb::Pulling => self.pulling = on,
            DeploymentVerb::Recloning => self.recloning = on,
        }
    }
}

} // verus!
