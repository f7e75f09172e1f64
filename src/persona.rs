//! Personas: the role a worker plays in the governance hierarchy, its
//! capabilities and communication rules.

use vstd::prelude::*;
use crate::text::{lower_of, lowercase, str_eq};

verus! {

/// The personas a worker can take on.
#[derive(Debug, Clone, Copy, PartialEq, Eq, Hash, Structural)]
pub enum PersonaType {
    MasterBa,
    ProjectBa,
    Coder,
    Tester,
}

/// Governance levels, from programme down to delivery.
#[derive(Debug, Clone, Copy, PartialEq, Eq, Structural)]
pub enum GovernanceLevel {
    Programme,
    Project,
    Delivery,
}

impl GovernanceLevel {
    pub open spec fn name_spec(self) -> Seq<char> {
        match self {
            GovernanceLevel::Programme => "Programme"@,
            GovernanceLevel::Project => "Project"@,
            GovernanceLevel::Delivery => "Delivery"@,
        }
    }

    /// The level's display name.
    pub fn to_string(&self) -> (r: String)
        ensures
            r@ == self.name_spec(),
    {
        match self {
            GovernanceLevel::Programme => "Programme".to_owned(),
            GovernanceLevel::Project => "Project".to_owned(),
            GovernanceLevel::Delivery => "Delivery".to_owned(),
        }
    }
}

/// Every persona, in order of rank.
pub open spec fn all_persona_types() -> Seq<PersonaType> {
    seq![PersonaType::MasterBa, PersonaType::ProjectBa, PersonaType::Coder, PersonaType::Tester]
}

/// The persona a lower-case name denotes; each BA accepts three spellings.
pub open spec fn persona_of_name(s: Seq<char>) -> Option<PersonaType> {
    if s == "master-ba"@ || s == "masterba"@ || s == "master_ba"@ {
        Some(PersonaType::MasterBa)
    } else if s == "project-ba"@ || s == "projectba"@ || s == "project_ba"@ {
        Some(PersonaType::ProjectBa)
    } else if s == "coder"@ {
        Some(PersonaType::Coder)
    } else if s == "tester"@ {
        Some(PersonaType::Tester)
    } else {
        None
    }
}

/// Message for an unknown persona name.
pub open spec fn unknown_persona_message(s: Seq<char>) -> Seq<char> {
    "Unknown persona type '"@ + s + "'. Valid: master-ba, project-ba, coder, tester"@
}

impl PersonaType {
    pub open spec fn slug_spec(self) -> Seq<char> {
        match self {
            PersonaType::MasterBa => "master-ba"@,
            PersonaType::ProjectBa => "project-ba"@,
            PersonaType::Coder => "coder"@,
            PersonaType::Tester => "tester"@,
        }
    }

    /// The persona's slug, as used in paths and on the wire.
    pub fn slug(&self) -> (r: &'static str)
        ensures
            r@ == self.slug_spec(),
    {
        match self {
            PersonaType::MasterBa => "master-ba",
            PersonaType::ProjectBa => "project-ba",
            PersonaType::Coder => "coder",
            PersonaType::Tester => "tester",
        }
    }

    pub open spec fn display_spec(self) -> Seq<char> {
        match self {
            PersonaType::MasterBa => "Master BA"@,
            PersonaType::ProjectBa => "Project BA"@,
            PersonaType::Coder => "Coder"@,
            PersonaType::Tester => "Tester"@,
        }
    }

    /// The persona's display name.
    pub fn display_name(&self) -> (r: &'static str)
        ensures
            r@ == self.display_spec(),
    {
        match self {
            PersonaType::MasterBa => "Master BA",
            PersonaType::ProjectBa => "Project BA",
            PersonaType::Coder => "Coder",
            PersonaType::Tester => "Tester",
        }
    }

    /// The display name as an owned string.
    pub fn to_string(&self) -> (r: String)
        ensures
            r@ == self.display_spec(),
    {
        self.display_name().to_owned()
    }

    /// All personas, in order of rank.
    pub fn all() -> (r: Vec<PersonaType>)
        ensures
            r@ == all_persona_types(),
    {
        let r = vec![PersonaType::MasterBa, PersonaType::ProjectBa, PersonaType::Coder, PersonaType::Tester];
        assert(r@ =~= all_persona_types());
        r
    }

    pub open spec fn level_spec(self) -> GovernanceLevel {
        match self {
            PersonaType::MasterBa => GovernanceLevel::Programme,
            PersonaType::ProjectBa => GovernanceLevel::Project,
            PersonaType::Coder | PersonaType::Tester => GovernanceLevel::Delivery,
        }
    }

    /// The governance level the persona works at.
    pub fn governance_level(&self) -> (r: GovernanceLevel)
        ensures
            r == self.level_spec(),
    {
        match self {
            PersonaType::MasterBa => GovernanceLevel::Programme,
            PersonaType::ProjectBa => GovernanceLevel::Project,
            PersonaType::Coder | PersonaType::Tester => GovernanceLevel::Delivery,
        }
    }

    /// The persona a lower-case name denotes.
    pub fn from_lower_name(s: &str) -> (r: Option<Self>)
        ensures
            r == persona_of_name(s@),
    {
        if str_eq(s, "master-ba") || str_eq(s, "masterba") || str_eq(s, "master_ba") {
            Some(PersonaType::MasterBa)
        } else if str_eq(s, "project-ba") || str_eq(s, "projectba") || str_eq(s, "project_ba") {
            Some(PersonaType::ProjectBa)
        } else if str_eq(s, "coder") {
            Some(PersonaType::Coder)
        } else if str_eq(s, "tester") {
            Some(PersonaType::Tester)
        } else {
            None
        }
    }

    /// The persona a name in any case denotes; an unknown name is refused
    /// with a message that lists the valid ones.
    pub fn parse_name(s: &str) -> (r: Result<Self, String>)
        ensures
            match r {
                Ok(p) => persona_of_name(lower_of(s@)) == Some(p),
                Err(m) => persona_of_name(lower_of(s@)) is None && m@ == unknown_persona_message(s@),
            },
    {
        let l = lowercase(s);
        match PersonaType::from_lower_name(l.as_str()) {
            Some(p) => Ok(p),
            None => {
                let mut m = "Unknown persona type '".to_owned();
                m.append(s);
                m.append("'. Valid: master-ba, project-ba, coder, tester");
                Err(m)
            },
        }
    }
}

impl std::str::FromStr for PersonaType {
    type Err = String;

    fn from_str(s: &str) -> Result<Self, String> {
        PersonaType::parse_name(s)
    }
}

/// What a persona may do.
#[derive(Debug, Clone, Default)]
pub struct PersonaCapabilities {
    pub allowed_task_types: Vec<String>,
    pub can_create_projects: bool,
    pub can_create_milestones: bool,
    pub can_approve_milestones: bool,
    pub can_assign_work: bool,
    pub can_submit_work: bool,
    pub can_verify_work: bool,
}

/// Whom a persona may talk to.
#[derive(Debug, Clone, Default)]
pub struct CommunicationRules {
    pub can_message: Vec<PersonaType>,
    pub can_receive_from: Vec<PersonaType>,
    pub escalation_target: Option<PersonaType>,
}

/// Default limit on milestones a persona works on at once.
pub fn default_max_concurrent() -> (r: u32)
    ensures
        r == 5,
{
    5
}

/// How a persona works.
#[derive(Debug, Clone)]
pub struct WorkflowRules {
    pub max_concurrent_milestones: u32,
    pub can_create_programmes: bool,
    pub requires_signature: bool,
}

impl Default for WorkflowRules {
    fn default() -> (r: Self)
        ensures
            r.max_concurrent_milestones == 5,
            !r.can_create_programmes,
            !r.requires_signature,
    {
        WorkflowRules { max_concurrent_milestones: default_max_concurrent(), can_create_programmes: false, requires_signature: false }
    }
}

/// A persona's full configuration.
#[derive(Debug, Clone)]
pub struct PersonaConfig {
    pub persona_type: PersonaType,
    pub version: String,
    pub description: String,
    pub system_prompt: String,
    pub capabilities: PersonaCapabilities,
    pub communication: CommunicationRules,
    pub workflow: WorkflowRules,
}

/// Why a persona configuration was refused.
#[derive(Debug, Clone, PartialEq, Eq)]
pub enum PersonaConfigError {
    /// The configuration is for another persona.
    TypeMismatch { found: PersonaType, expected: PersonaType },
    /// The version is empty.
    EmptyVersion,
}

/// Checks a loaded configuration against the persona it was loaded for:
/// the persona must match, and the version must not be empty.
pub fn check_persona_config(cfg: &PersonaConfig, expected: PersonaType) -> (r: Result<(), PersonaConfigError>)
    ensures
        cfg.persona_type != expected ==> r == Err::<(), PersonaConfigError>(
            PersonaConfigError::TypeMismatch { found: cfg.persona_type, expected }),
        cfg.persona_type == expected && cfg.version@.len() == 0 ==> r == Err::<(), PersonaConfigError>(PersonaConfigError::EmptyVersion),
        r is Ok <==> cfg.persona_type == expected && cfg.version@.len() > 0,
{
    if cfg.persona_type != expected {
        return Err(PersonaConfigError::TypeMismatch { found: cfg.persona_type, expected });
    }
    if cfg.version.as_str().is_empty() {
        return Err(PersonaConfigError::EmptyVersion);
    }
    Ok(())
}

/// An installed persona.
#[derive(Debug, Clone)]
pub struct InstalledPersona {
    pub persona_type: PersonaType,
    pub version: String,
    pub config_path: String,
    pub is_active: bool,
}

/// A persona on offer.
#[derive(Debug, Clone)]
pub struct PersonaListing {
    pub persona_type: PersonaType,
    pub description: &'static str,
    pub bundled: bool,
}

/// The personas on offer.
pub struct PersonaRegistry;

impl PersonaType {
    pub open spec fn description_spec(self) -> Seq<char> {
        match self {
            PersonaType::MasterBa => "Programme-level BA \u{2014} defines WHY and WHAT"@,
            PersonaType::ProjectBa => "Project-level BA \u{2014} defines HOW, manages milestones"@,
            PersonaType::Coder => "Delivery \u{2014} implements milestone deliverables"@,
            PersonaType::Tester => "Delivery \u{2014} verifies deliverables against acceptance criteria"@,
        }
    }

    /// A one-line description of the persona's role.
    pub fn description(&self) -> (r: &'static str)
        ensures
            r@ == self.description_spec(),
    {
        match self {
            PersonaType::MasterBa => "Programme-level BA \u{2014} defines WHY and WHAT",
            PersonaType::ProjectBa => "Project-level BA \u{2014} defines HOW, manages milestones",
            PersonaType::Coder => "Delivery \u{2014} implements milestone deliverables",
            PersonaType::Tester => "Delivery \u{2014} verifies deliverables against acceptance criteria",
        }
    }
}

impl PersonaRegistry {
    /// The registry of bundled personas.
    pub fn new() -> (r: Self) {
        PersonaRegistry
    }

    /// Every persona, with its description, all bundled.
    pub fn list_available(&self) -> (r: Vec<PersonaListing>)
        ensures
            r@.len() == 4,
            forall|i: int| 0 <= i < 4 ==> (#[trigger] r@[i]).persona_type == all_persona_types()[i]
                && r@[i].description@ == all_persona_types()[i].description_spec()
                && r@[i].bundled,
    {
        let all = PersonaType::all();
        let mut out: Vec<PersonaListing> = Vec::new();
        let mut i: usize = 0;
        while i < all.len()
            invariant
                all@ == all_persona_types(),
                i <= 4,
                out@.len() == i,
                forall|k: int| 0 <= k < i ==> (#[trigger] out@[k]).persona_type == all_persona_types()[k]
                    && out@[k].description@ == all_persona_types()[k].description_spec()
                    && out@[k].bundled,
            decreases 4 - i,
        {
            let pt = all[i];
            out.push(PersonaListing { persona_type: pt, description: pt.description(), bundled: true });
            i += 1;
        }
        out
    }
}

/// File that names the active persona, inside the persona directory.
pub const ACTIVE_FILE: &'static str = "active.txt";
/// A persona's configuration file, inside its own directory.
pub const CONFIG_FILE: &'static str = "config.toml";

/// Installed personas: where they live and which one is active. Reading and
/// writing the files is the caller's; this holds the layout and the rules.
pub struct PersonaManager {
    persona_dir: String,
    registry: PersonaRegistry,
    active_persona: Option<PersonaConfig>,
}

impl PersonaManager {
    pub closed spec fn dir_spec(&self) -> Seq<char> {
        self.persona_dir@
    }

    pub closed spec fn active_spec(&self) -> Option<PersonaConfig> {
        self.active_persona
    }

    /// A manager over `persona_dir`, with no persona active.
    pub fn new(persona_dir: String) -> (r: Self)
        ensures
            r.dir_spec() == persona_dir@,
            r.active_spec() is None,
    {
        PersonaManager { persona_dir, registry: PersonaRegistry::new(), active_persona: None }
    }

    /// The persona directory.
    pub fn persona_dir(&self) -> (r: &str)
        ensures
            r@ == self.dir_spec(),
    {
        self.persona_dir.as_str()
    }

    /// The directory of one persona: `<dir>/<slug>`.
    pub fn persona_path(&self, persona_type: PersonaType) -> (r: String)
        ensures
            r@ == self.dir_spec() + "/"@ + persona_type.slug_spec(),
    {
        let mut s = self.persona_dir.clone();
        s.append("/");
        s.append(persona_type.slug());
        s
    }

    /// The configuration file of one persona: `<dir>/<slug>/config.toml`.
    pub fn config_path(&self, persona_type: PersonaType) -> (r: String)
        ensures
            r@ == self.dir_spec() + "/"@ + persona_type.slug_spec() + "/"@ + CONFIG_FILE@,
    {
        let mut s = self.persona_path(persona_type);
        s.append("/");
        s.append(CONFIG_FILE);
        s
    }

    /// The file naming the active persona: `<dir>/active.txt`.
    pub fn active_file_path(&self) -> (r: String)
        ensures
            r@ == self.dir_spec() + "/"@ + ACTIVE_FILE@,
    {
        let mut s = self.persona_dir.clone();
        s.append("/");
        s.append(ACTIVE_FILE);
        s
    }

    /// The active persona, if one was activated or loaded.
    pub fn active_persona(&self) -> (r: Option<&PersonaConfig>)
        ensures
            match r {
                Some(c) => self.active_spec() == Some(*c),
                None => self.active_spec() is None,
            },
    {
        match &self.active_persona {
            Some(c) => Some(c),
            None => None,
        }
    }

    /// The personas on offer.
    pub fn registry(&self) -> (r: &PersonaRegistry) {
        &self.registry
    }

    /// Makes a configuration read for `persona_type` the active one, once it
    /// passes `check_persona_config`; a refused one changes nothing.
    pub fn activate_loaded(&mut self, persona_type: PersonaType, cfg: PersonaConfig) -> (r: Result<(), PersonaConfigError>)
        ensures
            final(self).dir_spec() == old(self).dir_spec(),
            r is Ok <==> cfg.persona_type == persona_type && cfg.version@.len() > 0,
            r is Ok ==> final(self).active_spec() == Some(cfg),
            r is Err ==> final(self).active_spec() == old(self).active_spec(),
    {
        match check_persona_config(&cfg, persona_type) {
            Ok(()) => {
                self.active_persona = Some(cfg);
                Ok(())
            },
            Err(e) => Err(e),
        }
    }
}

} // verus!
