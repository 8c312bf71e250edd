//! The factory: who administers it, the code from which projects are
//! deployed, and the registry of the projects deployed so far.
//!
//! The factory does not deploy anything itself. `create_project` decides
//! whether a project may be created and says what is to be deployed and
//! under which salt; once that is done, `register_project` enters the
//! address of the new instance. If the deployment fails, nothing is entered.

use crate::address::Address;
use crate::project::{CrowdfundingProject, ProjectData, ProjectState};
use crate::salt::{deployment_salt, sha256_digest};
use vstd::prelude::*;

verus! {

/// Why a call on the factory was refused.
#[derive(Clone, Copy, Debug, PartialEq, Eq, PartialOrd, Ord, Hash, Structural)]
pub enum Error {
    /// The caller is not the one the call needs.
    NotAuthorized,
    /// No project code has been configured yet.
    ProjectWasmHashNotSet,
}

impl Error {
    /// The number under which the error is reported.
    pub open spec fn spec_code(self) -> u32 {
        match self {
            Error::NotAuthorized => 1,
            Error::ProjectWasmHashNotSet => 2,
        }
    }

    /// The number under which the error is reported.
    pub fn code(&self) -> (code: u32)
        ensures
            code == self.spec_code(),
    {
        match self {
            Error::NotAuthorized => 1,
            Error::ProjectWasmHashNotSet => 2,
        }
    }
}

/// What has to be deployed for a new project.
pub struct Deployment {
    /// The hash of the code to instantiate.
    pub wasm_hash: [u8; 32],
    /// The salt from which, together with the factory's own address, the
    /// address of the instance follows.
    pub salt: [u8; 32],
    /// The state in which the instance starts.
    pub project: CrowdfundingProject,
}

/// The state of a factory as the contracts speak of it.
pub struct FactoryState {
    pub admin: Address,
    /// The hash of the code of new projects, once configured.
    pub project_wasm_hash: Option<[u8; 32]>,
    /// The addresses of the deployed projects, oldest first.
    pub projects: Seq<Address>,
}

impl FactoryState {
    /// The state of a factory that was just set up.
    pub open spec fn initialize(admin: Address) -> FactoryState {
        FactoryState { admin, project_wasm_hash: None, projects: Seq::empty() }
    }

    /// What `set_project_wasm_hash` answers.
    pub open spec fn set_project_wasm_hash_result(self, caller: Address) -> Result<(), Error> {
        if caller != self.admin {
            Err(Error::NotAuthorized)
        } else {
            Ok(())
        }
    }

    /// The state that `set_project_wasm_hash` leaves.
    pub open spec fn after_set_project_wasm_hash(self, caller: Address, wasm_hash: [u8; 32])
        -> FactoryState {
        if self.set_project_wasm_hash_result(caller) is Ok {
            FactoryState { project_wasm_hash: Some(wasm_hash), ..self }
        } else {
            self
        }
    }

    /// Why `create_project` refuses a call, if it does.
    pub open spec fn create_project_error(self, caller: Address, creator: Address) -> Option<
        Error,
    > {
        if caller != creator {
            Some(Error::NotAuthorized)
        } else if self.project_wasm_hash is None {
            Some(Error::ProjectWasmHashNotSet)
        } else {
            None
        }
    }

    /// The state that `register_project` leaves.
    pub open spec fn after_register_project(self, address: Address) -> FactoryState {
        FactoryState { projects: self.projects.push(address), ..self }
    }
}

/// A factory instance.
pub struct CrowdfundingFactory {
    admin: Address,
    project_wasm_hash: Option<[u8; 32]>,
    projects: Vec<Address>,
}

impl View for CrowdfundingFactory {
    type V = FactoryState;

    closed spec fn view(&self) -> FactoryState {
        FactoryState {
            admin: self.admin,
            project_wasm_hash: self.project_wasm_hash,
            projects: self.projects@,
        }
    }
}

impl CrowdfundingFactory {
    /// Sets a factory up under `admin`, with no project code and an empty
    /// registry.
    pub fn initialize(admin: Address) -> (factory: CrowdfundingFactory)
        ensures
            factory@ == FactoryState::initialize(admin),
    {
        CrowdfundingFactory { admin, project_wasm_hash: None, projects: Vec::new() }
    }

    /// The factory that holds the given parts, as they were read from
    /// storage.
    pub fn from_parts(
        admin: Address,
        project_wasm_hash: Option<[u8; 32]>,
        projects: Vec<Address>,
    ) -> (factory: CrowdfundingFactory)
        ensures
            factory@ == (FactoryState { admin, project_wasm_hash, projects: projects@ }),
    {
        CrowdfundingFactory { admin, project_wasm_hash, projects }
    }

    /// Configures the code from which projects are deployed from now on.
    /// Only the administrator may. Projects that exist are not touched.
    pub fn set_project_wasm_hash(&mut self, admin: &Address, wasm_hash: [u8; 32]) -> (result:
        Result<(), Error>)
        ensures
            result == old(self)@.set_project_wasm_hash_result(*admin),
            final(self)@ == old(self)@.after_set_project_wasm_hash(*admin, wasm_hash),
    {
        if *admin != self.admin {
            return Err(Error::NotAuthorized);
        }
        self.project_wasm_hash = Some(wasm_hash);
        Ok(())
    }

    /// Decides on the creation of a project for `creator`, who must be the
    /// caller. Where project code is configured, the answer names that
    /// code, the salt that follows from the creator's address alone, and
    /// the state in which the new instance starts: the project set up with
    /// the given data. The factory itself is not changed.
    pub fn create_project(
        &self,
        caller: &Address,
        creator: Address,
        title: String,
        description: String,
        image_url: String,
        deadline: u64,
    ) -> (result: Result<Deployment, Error>)
        ensures
            match result {
                Ok(deployment) => {
                    &&& self@.create_project_error(*caller, creator) is None
                    &&& Some(deployment.wasm_hash) == self@.project_wasm_hash
                    &&& deployment.salt@ == sha256_digest(creator.xdr())
                    &&& deployment.project.wf()
                    &&& deployment.project@ == ProjectState::init(
                        ProjectData { title, description, image_url, creator, deadline },
                    )
                },
                Err(error) => self@.create_project_error(*caller, creator) == Some(error),
            },
    {
        if *caller != creator {
            return Err(Error::NotAuthorized);
        }
        let wasm_hash = match self.project_wasm_hash {
            Some(hash) => hash,
            None => {
                return Err(Error::ProjectWasmHashNotSet);
            },
        };
        let salt = deployment_salt(&creator);
        let project = CrowdfundingProject::init(
            title,
            description,
            image_url,
            creator,
            deadline as i128,
        );
        Ok(Deployment { wasm_hash, salt, project })
    }

    /// Enters the address at which a project was deployed at the end of
    /// the registry, and hands it back.
    pub fn register_project(&mut self, address: Address) -> (registered: Address)
        ensures
            registered == address,
            final(self)@ == old(self)@.after_register_project(address),
    {
        self.projects.push(address);
        address
    }

    /// The addresses of all deployed projects, oldest first.
    pub fn get_projects(&self) -> (projects: Vec<Address>)
        ensures
            projects@ == self@.projects,
    {
        self.projects.clone()
    }

    /// The administrator.
    pub fn get_admin(&self) -> (admin: Address)
        ensures
            admin == self@.admin,
    {
        self.admin
    }

    /// The hash of the code of new projects, if one was configured.
    pub fn get_project_wasm_hash(&self) -> (wasm_hash: Option<[u8; 32]>)
        ensures
            wasm_hash == self@.project_wasm_hash,
    {
        self.project_wasm_hash
    }
}

} // verus!
