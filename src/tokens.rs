//! Names of token scopes, token states and key usages as the remote API writes them.
use vstd::prelude::*;
use crate::text::str_eq;

verus! {

/// Scopes for personal access tokens.
#[derive(Debug, Clone, Copy, PartialEq, Eq, Hash, Structural)]
pub enum PersonalAccessTokenScope {
    /// Access the API and perform git reads and writes.
    Api,
    /// Access to read the user information.
    ReadUser,
    /// Access to API read-only.
    ReadApi,
    /// Access to read private repository.
    ReadRepository,
    /// Access to write private repository.
    WriteRepository,
    /// Access to read container registry.
    ReadRegistry,
    /// Access to write container registry.
    WriteRegistry,
    /// Access to perform API actions as any user if authenticated as administrator.
    Sudo,
    /// Access to perform API actions as administrator when Admin Mode is enabled.
    AdminMode,
    /// Access to creation of runners.
    CreateRunner,
    /// Access to API actions on GitLab Duo.
    AiFeatures,
    /// Access to k8s API calls.
    K8sFeatures,
}

/// The name of each scope.
pub open spec fn scope_name(s: PersonalAccessTokenScope) -> Seq<char> {
    match s {
        PersonalAccessTokenScope::Api => "api"@,
        PersonalAccessTokenScope::ReadUser => "read_user"@,
        PersonalAccessTokenScope::ReadApi => "read_api"@,
        PersonalAccessTokenScope::ReadRepository => "read_repository"@,
        PersonalAccessTokenScope::WriteRepository => "write_repository"@,
        PersonalAccessTokenScope::ReadRegistry => "read_registry"@,
        PersonalAccessTokenScope::WriteRegistry => "write_registry"@,
        PersonalAccessTokenScope::Sudo => "sudo"@,
        PersonalAccessTokenScope::AdminMode => "admin_mode"@,
        PersonalAccessTokenScope::CreateRunner => "create_runner"@,
        PersonalAccessTokenScope::AiFeatures => "ai_features"@,
        PersonalAccessTokenScope::K8sFeatures => "k8s_features"@,
    }
}

impl PersonalAccessTokenScope {
    /// The scope as a query parameter.
    pub fn as_str(self) -> (r: &'static str)
        ensures
            r@ == scope_name(self),
    {
        match self {
            PersonalAccessTokenScope::Api => "api",
            PersonalAccessTokenScope::ReadUser => "read_user",
            PersonalAccessTokenScope::ReadApi => "read_api",
            PersonalAccessTokenScope::ReadRepository => "read_repository",
            PersonalAccessTokenScope::WriteRepository => "write_repository",
            PersonalAccessTokenScope::ReadRegistry => "read_registry",
            PersonalAccessTokenScope::WriteRegistry => "write_registry",
            PersonalAccessTokenScope::Sudo => "sudo",
            PersonalAccessTokenScope::AdminMode => "admin_mode",
            PersonalAccessTokenScope::CreateRunner => "create_runner",
            PersonalAccessTokenScope::AiFeatures => "ai_features",
            PersonalAccessTokenScope::K8sFeatures => "k8s_features",
        }
    }

    /// The scope that `s` names.
    pub fn parse(s: &str) -> (r: Option<PersonalAccessTokenScope>)
        ensures
            match r {
                Some(x) => scope_name(x) == s@,
                None => forall|x: PersonalAccessTokenScope| scope_name(x) != s@,
            },
    {
        if str_eq(s, "api") {
            Some(PersonalAccessTokenScope::Api)
        } else if str_eq(s, "read_user") {
            Some(PersonalAccessTokenScope::ReadUser)
        } else if str_eq(s, "read_api") {
            Some(PersonalAccessTokenScope::ReadApi)
        } else if str_eq(s, "read_repository") {
            Some(PersonalAccessTokenScope::ReadRepository)
        } else if str_eq(s, "write_repository") {
            Some(PersonalAccessTokenScope::WriteRepository)
        } else if str_eq(s, "read_registry") {
            Some(PersonalAccessTokenScope::ReadRegistry)
        } else if str_eq(s, "write_registry") {
            Some(PersonalAccessTokenScope::WriteRegistry)
        } else if str_eq(s, "sudo") {
            Some(PersonalAccessTokenScope::Sudo)
        } else if str_eq(s, "admin_mode") {
            Some(PersonalAccessTokenScope::AdminMode)
        } else if str_eq(s, "create_runner") {
            Some(PersonalAccessTokenScope::CreateRunner)
        } else if str_eq(s, "ai_features") {
            Some(PersonalAccessTokenScope::AiFeatures)
        } else if str_eq(s, "k8s_features") {
            Some(PersonalAccessTokenScope::K8sFeatures)
        } else {
            proof {
                assert forall|x: PersonalAccessTokenScope| scope_name(x) != s@ by {
                    match x {
                        PersonalAccessTokenScope::Api => {},
                        PersonalAccessTokenScope::ReadUser => {},
                        PersonalAccessTokenScope::ReadApi => {},
                        PersonalAccessTokenScope::ReadRepository => {},
                        PersonalAccessTokenScope::WriteRepository => {},
                        PersonalAccessTokenScope::ReadRegistry => {},
                        PersonalAccessTokenScope::WriteRegistry => {},
                        PersonalAccessTokenScope::Sudo => {},
                        PersonalAccessTokenScope::AdminMode => {},
                        PersonalAccessTokenScope::CreateRunner => {},
                        PersonalAccessTokenScope::AiFeatures => {},
                        PersonalAccessTokenScope::K8sFeatures => {},
                    }
                }
            }
            None
        }
    }
}

/// State filter of personal access tokens.
#[derive(Debug, Clone, Copy, PartialEq, Eq, Structural)]
pub enum PersonalAccessTokenState {
    Active,
    Inactive,
}

/// The name of each token state.
pub open spec fn state_name(s: PersonalAccessTokenState) -> Seq<char> {
    match s {
        PersonalAccessTokenState::Active => "active"@,
        PersonalAccessTokenState::Inactive => "inactive"@,
    }
}

impl PersonalAccessTokenState {
    /// The state as a query parameter.
    pub fn as_str(&self) -> (r: &'static str)
        ensures
            r@ == state_name(*self),
    {
        match self {
            PersonalAccessTokenState::Active => "active",
            PersonalAccessTokenState::Inactive => "inactive",
        }
    }

    /// The state that `s` names.
    pub fn parse(s: &str) -> (r: Option<PersonalAccessTokenState>)
        ensures
            match r {
                Some(x) => state_name(x) == s@,
                None => forall|x: PersonalAccessTokenState| state_name(x) != s@,
            },
    {
        if str_eq(s, "active") {
            Some(PersonalAccessTokenState::Active)
        } else if str_eq(s, "inactive") {
            Some(PersonalAccessTokenState::Inactive)
        } else {
            proof {
                assert forall|x: PersonalAccessTokenState| state_name(x) != s@ by {
                    match x {
                        PersonalAccessTokenState::Active => {},
                        PersonalAccessTokenState::Inactive => {},
                    }
                }
            }
            None
        }
    }
}

/// Usage types of an SSH key.
#[derive(Debug, Clone, Copy, PartialEq, Eq, Structural)]
pub enum KeyUsage {
    Auth,
    Signing,
    AuthAndSigning,
}

/// The name of each key usage.
pub open spec fn usage_name(u: KeyUsage) -> Seq<char> {
    match u {
        KeyUsage::Auth => "auth"@,
        KeyUsage::Signing => "signing"@,
        KeyUsage::AuthAndSigning => "auth_and_signing"@,
    }
}

impl KeyUsage {
    /// The usage as a query parameter.
    pub fn as_str(self) -> (r: &'static str)
        ensures
            r@ == usage_name(self),
    {
        match self {
            KeyUsage::Auth => "auth",
            KeyUsage::Signing => "signing",
            KeyUsage::AuthAndSigning => "auth_and_signing",
        }
    }

    /// The usage that `s` names.
    pub fn parse(s: &str) -> (r: Option<KeyUsage>)
        ensures
            match r {
                Some(x) => usage_name(x) == s@,
                None => forall|x: KeyUsage| usage_name(x) != s@,
            },
    {
        if str_eq(s, "auth") {
            Some(KeyUsage::Auth)
        } else if str_eq(s, "signing") {
            Some(KeyUsage::Signing)
        } else if str_eq(s, "auth_and_signing") {
            Some(KeyUsage::AuthAndSigning)
        } else {
            proof {
                assert forall|x: KeyUsage| usage_name(x) != s@ by {
                    match x {
                        KeyUsage::Auth => {},
                        KeyUsage::Signing => {},
                        KeyUsage::AuthAndSigning => {},
                    }
                }
            }
            None
        }
    }
}

impl std::str::FromStr for PersonalAccessTokenScope {
    type Err = String;

    fn from_str(s: &str) -> Result<PersonalAccessTokenScope, String> {
        match PersonalAccessTokenScope::parse(s) {
            Some(x) => Ok(x),
            None => Err("Unknown scope ".to_string().concat(s)),
        }
    }
}

impl std::str::FromStr for KeyUsage {
    type Err = String;

    fn from_str(s: &str) -> Result<KeyUsage, String> {
        match KeyUsage::parse(s) {
            Some(x) => Ok(x),
            None => Err(
                "Usage types are \"auth\", \"signing\" or \"auth_and_signing\" not ".to_string().concat(s),
            ),
        }
    }
}

impl std::str::FromStr for PersonalAccessTokenState {
    type Err = String;

    fn from_str(s: &str) -> Result<PersonalAccessTokenState, String> {
        match PersonalAccessTokenState::parse(s) {
            Some(x) => Ok(x),
            None => Err(
                "Unsupported token state value (active or inactive): ".to_string().concat(s),
            ),
        }
    }
}

} // verus!
