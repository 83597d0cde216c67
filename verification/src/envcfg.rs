//! API environment configuration: profiles, endpoint normalization, and the
//! base/parent URL layout.

use vstd::prelude::*;

use crate::error::Error;
use crate::strutil::{lower_chars, lower_spec, trim_chars, trim_spec, string_to_chars,
    chars_to_string};

verus! {

/// The environment variable that unlocks experimental profiles and auth
/// methods when set to `1`.
pub const PROFILE_EXPERIMENT_FLAG: &'static str = "NBLM_ENABLE_EXPERIMENTAL_PROFILES";

/// The flag values that count as set: `1`, `true`, `yes` or `on`,
/// ignoring case and surrounding whitespace.
pub open spec fn truthy_flag_spec(v: Seq<char>) -> bool {
    let canon = lower_spec(trim_spec(v));
    canon == "1"@ || canon == "true"@ || canon == "yes"@ || canon == "on"@
}

/// Whether a feature flag's observed value counts as set; an unset
/// variable counts as unset.
pub fn truthy_flag(value: Option<String>) -> (r: bool)
    ensures
        r == (match value {
            Some(v) => truthy_flag_spec(v@),
            None => false,
        }),
{
    match value {
        Some(v) => {
            let t = crate::strutil::trim_string(v.as_str());
            let canon = crate::strutil::lower_string(t.as_str());
            crate::strutil::str_equal(canon.as_str(), "1") || crate::strutil::str_equal(
                canon.as_str(),
                "true",
            ) || crate::strutil::str_equal(canon.as_str(), "yes") || crate::strutil::str_equal(
                canon.as_str(),
                "on",
            )
        },
        None => false,
    }
}

/// Whether the experimental-features flag's observed value unlocks the
/// experimental profiles and auth methods.
pub fn profile_experiment_enabled_from(value: Option<String>) -> (r: bool)
    ensures
        r == (match value {
            Some(v) => truthy_flag_spec(v@),
            None => false,
        }),
{
    truthy_flag(value)
}

/// API profile types supported by the SDK.
#[derive(Debug, Clone, Copy, PartialEq, Eq, Structural)]
pub enum ApiProfile {
    Enterprise,
    Personal,
    Workspace,
}

/// The label of each profile.
pub open spec fn profile_label_spec(p: ApiProfile) -> Seq<char> {
    match p {
        ApiProfile::Enterprise => "enterprise"@,
        ApiProfile::Personal => "personal"@,
        ApiProfile::Workspace => "workspace"@,
    }
}

impl ApiProfile {
    pub fn as_str(&self) -> (r: &'static str)
        ensures
            r@ == profile_label_spec(*self),
    {
        match self {
            ApiProfile::Enterprise => "enterprise",
            ApiProfile::Personal => "personal",
            ApiProfile::Workspace => "workspace",
        }
    }

    /// Only the Enterprise profile is generally available.
    pub fn requires_experimental_flag(&self) -> (r: bool)
        ensures
            r == (*self is Personal || *self is Workspace),
    {
        match self {
            ApiProfile::Enterprise => false,
            ApiProfile::Personal => true,
            ApiProfile::Workspace => true,
        }
    }

    /// Parse a profile label, ignoring case and surrounding whitespace.
    pub fn parse(input: &str) -> (r: Result<ApiProfile, Error>)
        ensures
            ({
                let canon = lower_spec(trim_spec(input@));
                if canon == "enterprise"@ {
                    r == Ok::<ApiProfile, Error>(ApiProfile::Enterprise)
                } else if canon == "personal"@ {
                    r == Ok::<ApiProfile, Error>(ApiProfile::Personal)
                } else if canon == "workspace"@ {
                    r == Ok::<ApiProfile, Error>(ApiProfile::Workspace)
                } else {
                    r matches Err(e) && e matches Error::Endpoint(m) && m@
                        == "unsupported API profile: "@ + canon
                }
            }),
    {
        let v = string_to_chars(input);
        let t = trim_chars(&v);
        let l = lower_chars(&t);
        let canon = chars_to_string(&l);
        if crate::strutil::str_equal(canon.as_str(), "enterprise") {
            Ok(ApiProfile::Enterprise)
        } else if crate::strutil::str_equal(canon.as_str(), "personal") {
            Ok(ApiProfile::Personal)
        } else if crate::strutil::str_equal(canon.as_str(), "workspace") {
            Ok(ApiProfile::Workspace)
        } else {
            let m = String::from_str("unsupported API profile: ").concat(canon.as_str());
            proof {
                assert(m@ =~= "unsupported API profile: "@ + lower_spec(trim_spec(input@)));
            }
            Err(Error::Endpoint(m))
        }
    }
}

/// Strip every trailing `-` from the sequence.
pub open spec fn strip_trailing_dashes(s: Seq<char>) -> Seq<char>
    decreases s.len(),
{
    if s.len() > 0 && s.last() == '-' {
        strip_trailing_dashes(s.drop_last())
    } else {
        s
    }
}

proof fn lemma_strip_dashes_suffix(s: Seq<char>, j: int)
    requires
        0 <= j <= s.len(),
        forall|k: int| j <= k < s.len() ==> s[k] == '-',
        j == 0 || s[j - 1] != '-',
    ensures
        strip_trailing_dashes(s) == s.subrange(0, j),
    decreases s.len() - j,
{
    if j == s.len() {
        assert(s.subrange(0, s.len() as int) =~= s);
    } else {
        assert(s.last() == '-');
        let t = s.drop_last();
        lemma_strip_dashes_suffix(t, j);
        assert(t.subrange(0, j) =~= s.subrange(0, j));
    }
}

/// The canonical form of an endpoint location: trimmed, stripped of
/// trailing dashes, lowercased.
pub open spec fn endpoint_canon_spec(input: Seq<char>) -> Seq<char> {
    lower_spec(strip_trailing_dashes(trim_spec(input)))
}

/// The normalized discovery-engine endpoint prefix, when the location is
/// one of the supported ones.
pub open spec fn normalized_endpoint_spec(input: Seq<char>) -> Option<Seq<char>> {
    let canon = endpoint_canon_spec(input);
    if canon == "us"@ {
        Some("us-"@)
    } else if canon == "eu"@ {
        Some("eu-"@)
    } else if canon == "global"@ {
        Some("global-"@)
    } else {
        None
    }
}

/// Normalize an endpoint location to the canonical discovery-engine
/// prefix (`us-`, `eu-` or `global-`); anything else is rejected with an
/// error naming the offending value.
pub fn normalize_endpoint_location(input: String) -> (r: Result<String, Error>)
    ensures
        normalized_endpoint_spec(input@) matches Some(v) ==> (r matches Ok(s) && s@ == v),
        normalized_endpoint_spec(input@) is None ==> (r matches Err(e) && e matches Error::Endpoint(
            m,
        ) && m@ == "unsupported endpoint location: "@ + endpoint_canon_spec(input@)),
{
    let v = string_to_chars(input.as_str());
    let t = trim_chars(&v);
    let mut end: usize = t.len();
    while end > 0 && t[end - 1] == '-'
        invariant
            end <= t@.len(),
            forall|k: int| end <= k < t@.len() ==> t@[k] == '-',
        decreases end,
    {
        end -= 1;
    }
    let mut stripped: Vec<char> = Vec::new();
    let mut i: usize = 0;
    while i < end
        invariant
            i <= end <= t@.len(),
            stripped@ == t@.subrange(0, i as int),
        decreases end - i,
    {
        stripped.push(t[i]);
        i += 1;
        proof {
            assert(stripped@ =~= t@.subrange(0, i as int));
        }
    }
    proof {
        lemma_strip_dashes_suffix(t@, end as int);
    }
    let l = lower_chars(&stripped);
    let canon = chars_to_string(&l);
    if crate::strutil::str_equal(canon.as_str(), "us") {
        Ok(String::from_str("us-"))
    } else if crate::strutil::str_equal(canon.as_str(), "eu") {
        Ok(String::from_str("eu-"))
    } else if crate::strutil::str_equal(canon.as_str(), "global") {
        Ok(String::from_str("global-"))
    } else {
        let m = String::from_str("unsupported endpoint location: ").concat(canon.as_str());
        proof {
            assert(m@ =~= "unsupported endpoint location: "@ + endpoint_canon_spec(input@));
        }
        Err(Error::Endpoint(m))
    }
}

/// Per-profile construction parameters.
#[derive(Debug)]
pub enum ProfileParams {
    Enterprise { project_number: String, location: String, endpoint_location: String },
    Personal { user_hint: Option<String> },
    Workspace { domain: Option<String>, user_hint: Option<String> },
}

impl ProfileParams {
    pub fn enterprise(project_number: String, location: String, endpoint_location: String) -> (p:
        Self)
        ensures
            p == (ProfileParams::Enterprise { project_number, location, endpoint_location }),
    {
        ProfileParams::Enterprise { project_number, location, endpoint_location }
    }

    pub fn personal(user_hint: Option<String>) -> (p: Self)
        ensures
            p == (ProfileParams::Personal { user_hint }),
    {
        ProfileParams::Personal { user_hint }
    }

    pub fn workspace(domain: Option<String>, user_hint: Option<String>) -> (p: Self)
        ensures
            p == (ProfileParams::Workspace { domain, user_hint }),
    {
        ProfileParams::Workspace { domain, user_hint }
    }

    /// Which profile these parameters belong to.
    pub fn expected_profile(&self) -> (r: ApiProfile)
        ensures
            r == profile_of_params(self),
    {
        match self {
            ProfileParams::Enterprise { .. } => ApiProfile::Enterprise,
            ProfileParams::Personal { .. } => ApiProfile::Personal,
            ProfileParams::Workspace { .. } => ApiProfile::Workspace,
        }
    }
}

/// The profile each parameter set belongs to.
pub open spec fn profile_of_params(p: &ProfileParams) -> ApiProfile {
    match p {
        ProfileParams::Enterprise { .. } => ApiProfile::Enterprise,
        ProfileParams::Personal { .. } => ApiProfile::Personal,
        ProfileParams::Workspace { .. } => ApiProfile::Workspace,
    }
}

/// The base URL of the Enterprise API for a normalized endpoint prefix.
pub open spec fn enterprise_base_url_spec(endpoint_prefix: Seq<char>) -> Seq<char> {
    "https://"@ + endpoint_prefix + "discoveryengine.googleapis.com/v1alpha"@
}

/// The parent resource path of an Enterprise project.
pub open spec fn enterprise_parent_spec(project_number: Seq<char>, location: Seq<char>) -> Seq<
    char,
> {
    "projects/"@ + project_number + "/locations/"@ + location
}

/// Runtime configuration describing the API environment.
#[derive(Debug, Clone)]
pub struct EnvironmentConfig {
    profile: ApiProfile,
    base_url: String,
    parent_path: String,
}

impl EnvironmentConfig {
    pub closed spec fn profile_spec(&self) -> ApiProfile {
        self.profile
    }

    pub closed spec fn base_url_spec(&self) -> Seq<char> {
        self.base_url@
    }

    pub closed spec fn parent_path_spec(&self) -> Seq<char> {
        self.parent_path@
    }

    /// Construct the environment config for the Enterprise SKU: the base
    /// URL carries the normalized endpoint prefix, the parent path the
    /// project number and location.
    pub fn enterprise(project_number: String, location: String, endpoint_location: String) -> (r:
        Result<Self, Error>)
        ensures
            normalized_endpoint_spec(endpoint_location@) matches Some(prefix) ==> (r matches Ok(c)
                && c.profile_spec() == ApiProfile::Enterprise && c.base_url_spec()
                == enterprise_base_url_spec(prefix) && c.parent_path_spec()
                == enterprise_parent_spec(project_number@, location@)),
            normalized_endpoint_spec(endpoint_location@) is None ==> (r matches Err(e) && e matches
                Error::Endpoint(m) && m@ == "unsupported endpoint location: "@
                + endpoint_canon_spec(endpoint_location@)),
    {
        let endpoint = match normalize_endpoint_location(endpoint_location) {
            Ok(e) => e,
            Err(e) => {
                return Err(e);
            },
        };
        let base_url = String::from_str("https://").concat(endpoint.as_str()).concat(
            "discoveryengine.googleapis.com/v1alpha",
        );
        let parent_path = String::from_str("projects/").concat(project_number.as_str()).concat(
            "/locations/",
        ).concat(location.as_str());
        proof {
            assert(base_url@ =~= enterprise_base_url_spec(endpoint@));
            assert(parent_path@ =~= enterprise_parent_spec(project_number@, location@));
        }
        Ok(EnvironmentConfig { profile: ApiProfile::Enterprise, base_url, parent_path })
    }

    pub fn profile(&self) -> (r: ApiProfile)
        ensures
            r == self.profile_spec(),
    {
        self.profile
    }

    pub fn base_url(&self) -> (r: &String)
        ensures
            r@ == self.base_url_spec(),
    {
        &self.base_url
    }

    pub fn parent_path(&self) -> (r: &String)
        ensures
            r@ == self.parent_path_spec(),
    {
        &self.parent_path
    }

    /// A copy with a different base URL (for tests and overrides).
    pub fn with_base_url(self, base_url: String) -> (r: Self)
        ensures
            r.profile_spec() == self.profile_spec(),
            r.base_url_spec() == base_url@,
            r.parent_path_spec() == self.parent_path_spec(),
    {
        EnvironmentConfig { base_url, ..self }
    }

    /// Construct the environment for a profile from its parameters.  Only
    /// the Enterprise profile has a public environment; the experimental
    /// profiles are rejected until their endpoints exist.
    pub fn from_profile(profile: ApiProfile, params: ProfileParams) -> (r: Result<Self, Error>)
        ensures
            profile != profile_of_params(&params) ==> (r matches Err(e) && e matches
                Error::Endpoint(m) && m@ == "profile parameters do not match the profile"@),
            ({
                &&& profile == profile_of_params(&params)
                &&& params matches ProfileParams::Enterprise { project_number, location,
                    endpoint_location }
                &&& normalized_endpoint_spec(endpoint_location@) is Some
            }) ==> (r matches Ok(c) && c.profile_spec() == ApiProfile::Enterprise),
            (profile == profile_of_params(&params) && (profile is Personal || profile
                is Workspace)) ==> (r matches Err(e) && e matches Error::Endpoint(m) && m@
                == "unsupported API profile: "@ + profile_label_spec(profile)),
    {
        let matches_profile = match (&profile, &params) {
            (ApiProfile::Enterprise, ProfileParams::Enterprise { .. }) => true,
            (ApiProfile::Personal, ProfileParams::Personal { .. }) => true,
            (ApiProfile::Workspace, ProfileParams::Workspace { .. }) => true,
            _ => false,
        };
        if !matches_profile {
            return Err(Error::Endpoint(String::from_str(
                "profile parameters do not match the profile",
            )));
        }
        match params {
            ProfileParams::Enterprise { project_number, location, endpoint_location } => {
                Self::enterprise(project_number, location, endpoint_location)
            },
            _ => {
                let m = String::from_str("unsupported API profile: ").concat(profile.as_str());
                proof {
                    assert(m@ =~= "unsupported API profile: "@ + profile_label_spec(profile));
                }
                Err(Error::Endpoint(m))
            },
        }
    }

    /// `from_profile` under its older name, constructing parameters from
    /// the Enterprise arguments.
    pub fn for_profile(
        profile: ApiProfile,
        project_number: String,
        location: String,
        endpoint_location: String,
    ) -> (r: Result<Self, Error>)
        ensures
            (profile is Enterprise && normalized_endpoint_spec(endpoint_location@) is Some) ==> (r
                matches Ok(c) && c.profile_spec() == ApiProfile::Enterprise && c.base_url_spec()
                == enterprise_base_url_spec(normalized_endpoint_spec(endpoint_location@).unwrap())
                && c.parent_path_spec() == enterprise_parent_spec(project_number@, location@)),
            (profile is Personal || profile is Workspace) ==> (r matches Err(e) && e matches
                Error::Endpoint(m) && m@ == "unsupported API profile: "@ + profile_label_spec(
                profile,
            )),
    {
        match profile {
            ApiProfile::Enterprise => Self::enterprise(project_number, location, endpoint_location),
            _ => {
                let m = String::from_str("unsupported API profile: ").concat(profile.as_str());
                proof {
                    assert(m@ =~= "unsupported API profile: "@ + profile_label_spec(profile));
                }
                Err(Error::Endpoint(m))
            },
        }
    }
}

} // verus!
