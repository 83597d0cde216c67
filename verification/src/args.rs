//! Command-line surface: the argument shapes, the pre-command dispatcher,
//! the experimental gates, and the provider selection and OAuth bootstrap
//! decisions.
//!
//! The argument parser itself (flag syntax, help, environment fallback)
//! lives outside the library; what arrives here are the parsed values.

use vstd::prelude::*;

use crate::envcfg::{profile_label_spec, ApiProfile, ProfileParams, PROFILE_EXPERIMENT_FLAG};
use crate::error::Error;
use crate::oauth::{OAuthClientConfig, OAuthConfig};
use crate::store::{opt_view, TokenStore, TokenStoreKey};
use crate::strutil::{str_equal, trim_spec, trim_string};

verus! {

/// The parsed command line: the global options and the selected command.
pub struct Cli {
    pub global: GlobalArgs,
    pub command: Command,
}

/// The global options shared by every command.
pub struct GlobalArgs {
    pub project_number: Option<String>,
    pub location: String,
    pub endpoint_location: String,
    pub profile: ProfileArg,
    pub auth: AuthMethod,
    pub token: Option<String>,
    pub json: bool,
    pub debug_http: bool,
    /// Request timeout override, in milliseconds.
    pub timeout_ms: Option<u64>,
    pub env_token: Option<String>,
    pub base_url: Option<String>,
}

/// The selected top-level command.
pub enum Command {
    Notebooks(crate::notebooks::Command),
    Sources(crate::sources::Command),
    Audio(crate::audio::Command),
    Auth(AuthCommand),
    Doctor(DoctorArgs),
}

/// The `auth` command's arguments.
pub struct AuthCommand {
    pub command: AuthSubcommand,
}

/// The `auth` subcommands.
pub enum AuthSubcommand {
    Login(LoginArgs),
    Status,
}

/// Arguments of `auth login`.
pub struct LoginArgs {
    pub drive_access: bool,
}

/// Arguments of `doctor`.
pub struct DoctorArgs {
    pub skip_api_check: bool,
}

/// The authentication backend selected on the command line.
#[derive(Debug, Clone, Copy, PartialEq, Eq, Structural)]
pub enum AuthMethod {
    Gcloud,
    Env,
    UserOauth,
}

/// The label of each auth method, as shown in messages.
pub open spec fn auth_method_label_spec(m: AuthMethod) -> Seq<char> {
    match m {
        AuthMethod::Gcloud => "gcloud"@,
        AuthMethod::Env => "env"@,
        AuthMethod::UserOauth => "user-oauth"@,
    }
}

impl AuthMethod {
    /// Only the user-OAuth method is gated behind the experimental flag.
    pub fn requires_experimental_flag(self) -> (r: bool)
        ensures
            r == (self is UserOauth),
    {
        match self {
            AuthMethod::UserOauth => true,
            _ => false,
        }
    }
}

/// The label of an auth method, as shown in messages.
pub fn auth_method_label(method: AuthMethod) -> (r: &'static str)
    ensures
        r@ == auth_method_label_spec(method),
{
    match method {
        AuthMethod::Gcloud => "gcloud",
        AuthMethod::Env => "env",
        AuthMethod::UserOauth => "user-oauth",
    }
}

/// The API profile selected on the command line.
#[derive(Debug, Clone, Copy, PartialEq, Eq, Structural)]
pub enum ProfileArg {
    Enterprise,
    Personal,
    Workspace,
}

impl ProfileArg {
    /// Only the Enterprise profile is generally available.
    pub fn requires_experimental_flag(self) -> (r: bool)
        ensures
            r == (self is Personal || self is Workspace),
    {
        match self {
            ProfileArg::Enterprise => false,
            _ => true,
        }
    }
}

/// The profile each argument value selects.
pub open spec fn api_profile_of_arg(arg: ProfileArg) -> ApiProfile {
    match arg {
        ProfileArg::Enterprise => ApiProfile::Enterprise,
        ProfileArg::Personal => ApiProfile::Personal,
        ProfileArg::Workspace => ApiProfile::Workspace,
    }
}

impl From<ProfileArg> for ApiProfile {
    fn from(arg: ProfileArg) -> (r: ApiProfile) {
        match arg {
            ProfileArg::Enterprise => ApiProfile::Enterprise,
            ProfileArg::Personal => ApiProfile::Personal,
            ProfileArg::Workspace => ApiProfile::Workspace,
        }
    }
}

impl vstd::std_specs::convert::FromSpecImpl<ProfileArg> for ApiProfile {
    open spec fn obeys_from_spec() -> bool {
        true
    }

    open spec fn from_spec(arg: ProfileArg) -> ApiProfile {
        api_profile_of_arg(arg)
    }
}

/// The commands that are dispatched before the full argument parse, so
/// they work without the global options.
pub enum SpecialCommand {
    Doctor(DoctorArgs),
    Auth(AuthCommand),
}

/// Whether one of `args[from..]` equals `flag`.
pub open spec fn has_flag_spec(args: Seq<Seq<char>>, from: int, flag: Seq<char>) -> bool {
    exists|i: int| from <= i < args.len() && args[i] == flag
}

fn has_flag(args: &Vec<String>, from: usize, flag: &str) -> (r: bool)
    ensures
        r == has_flag_spec(args@.map_values(|a: String| a@), from as int, flag@),
{
    let ghost views = args@.map_values(|a: String| a@);
    let mut i: usize = from;
    if from > args.len() {
        proof {
            assert(!has_flag_spec(views, from as int, flag@));
        }
        return false;
    }
    while i < args.len()
        invariant
            views == args@.map_values(|a: String| a@),
            from <= i <= args@.len(),
            forall|k: int| from <= k < i ==> views[k] != flag@,
        decreases args@.len() - i,
    {
        if str_equal(args[i].as_str(), flag) {
            proof {
                assert(views[i as int] == flag@);
            }
            return true;
        }
        i += 1;
    }
    false
}

/// Dispatch the `doctor` and `auth` commands from the raw argument list
/// (`args[0]` is the program name), before the full parse: `doctor` takes
/// its optional `--skip-api-check`; `auth` takes `login` (with optional
/// `--drive-access`) or `status`.  Anything else is left to the full
/// parser.
pub fn parse_pre_command(args: &Vec<String>) -> (r: Option<SpecialCommand>)
    ensures
        ({
            let views = args@.map_values(|a: String| a@);
            if views.len() <= 1 {
                r is None
            } else if views[1] == "doctor"@ {
                r matches Some(c) && c matches SpecialCommand::Doctor(d) && d.skip_api_check
                    == has_flag_spec(views, 2, "--skip-api-check"@)
            } else if views[1] == "auth"@ {
                if views.len() > 2 && views[2] == "login"@ {
                    r matches Some(c) && c matches SpecialCommand::Auth(a) && a.command matches
                        AuthSubcommand::Login(l) && l.drive_access == has_flag_spec(
                        views,
                        3,
                        "--drive-access"@,
                    )
                } else if views.len() > 2 && views[2] == "status"@ {
                    r matches Some(c) && c matches SpecialCommand::Auth(a) && a.command
                        is Status
                } else {
                    r is None
                }
            } else {
                r is None
            }
        }),
{
    if args.len() <= 1 {
        return None;
    }
    if str_equal(args[1].as_str(), "doctor") {
        let skip_api_check = has_flag(args, 2, "--skip-api-check");
        return Some(SpecialCommand::Doctor(DoctorArgs { skip_api_check }));
    }
    if str_equal(args[1].as_str(), "auth") {
        if args.len() > 2 && str_equal(args[2].as_str(), "login") {
            let drive_access = has_flag(args, 3, "--drive-access");
            return Some(
                SpecialCommand::Auth(
                    AuthCommand { command: AuthSubcommand::Login(LoginArgs { drive_access }) },
                ),
            );
        }
        if args.len() > 2 && str_equal(args[2].as_str(), "status") {
            return Some(SpecialCommand::Auth(AuthCommand { command: AuthSubcommand::Status }));
        }
        return None;
    }
    None
}

/// The message rejecting an experimental auth method.
pub open spec fn experimental_auth_message(m: AuthMethod) -> Seq<char> {
    "auth method '"@ + auth_method_label_spec(m)
        + "' is experimental and not yet available. Set "@ + PROFILE_EXPERIMENT_FLAG@
        + "=1 to enable experimental auth methods."@
}

/// Gate an auth method behind the experimental flag: experimental methods
/// are usable exactly when the flag is enabled.
pub fn check_auth_method_allowed(auth: AuthMethod, experiment_enabled: bool) -> (r: Result<
    (),
    Error,
>)
    ensures
        (auth is UserOauth && !experiment_enabled) ==> (r matches Err(e) && e matches
            Error::Validation(m) && m@ == experimental_auth_message(auth)),
        !(auth is UserOauth && !experiment_enabled) ==> r is Ok,
{
    if auth.requires_experimental_flag() && !experiment_enabled {
        let m = String::from_str("auth method '").concat(auth_method_label(auth)).concat(
            "' is experimental and not yet available. Set ",
        ).concat(PROFILE_EXPERIMENT_FLAG).concat("=1 to enable experimental auth methods.");
        proof {
            assert(m@ =~= experimental_auth_message(auth));
        }
        Err(Error::Validation(m))
    } else {
        Ok(())
    }
}

/// The message rejecting an experimental profile.
pub open spec fn experimental_profile_message(p: ApiProfile) -> Seq<char> {
    "profile '"@ + profile_label_spec(p) + "' is experimental and not yet available. Set "@
        + PROFILE_EXPERIMENT_FLAG@ + "=1 to enable experimental profile support."@
}

/// Gate a profile behind the experimental flag.
pub fn check_profile_allowed(profile: ApiProfile, experiment_enabled: bool) -> (r: Result<
    (),
    Error,
>)
    ensures
        ((profile is Personal || profile is Workspace) && !experiment_enabled) ==> (r matches Err(
            e,
        ) && e matches Error::Validation(m) && m@ == experimental_profile_message(profile)),
        !((profile is Personal || profile is Workspace) && !experiment_enabled) ==> r is Ok,
{
    if profile.requires_experimental_flag() && !experiment_enabled {
        let m = String::from_str("profile '").concat(profile.as_str()).concat(
            "' is experimental and not yet available. Set ",
        ).concat(PROFILE_EXPERIMENT_FLAG).concat("=1 to enable experimental profile support.");
        proof {
            assert(m@ =~= experimental_profile_message(profile));
        }
        Err(Error::Validation(m))
    } else {
        Ok(())
    }
}

/// The message requiring a project number for the Enterprise profile.
pub open spec fn project_number_required_message() -> Seq<char> {
    "enterprise profile requires --project-number or the NBLM_PROJECT_NUMBER environment variable"@
}

/// Resolve the per-profile construction parameters from the global
/// arguments: the Enterprise profile requires a non-blank project number
/// and defaults blank locations to `global`; the experimental profiles
/// carry no parameters.
pub fn resolve_profile_params(args: &GlobalArgs, profile: ApiProfile) -> (r: Result<
    ProfileParams,
    Error,
>)
    ensures
        profile is Enterprise ==> (match args.project_number {
            Some(ref p) => if trim_spec(p@).len() == 0 {
                r matches Err(e) && e matches Error::Validation(m) && m@
                    == project_number_required_message()
            } else {
                r matches Ok(params) && params matches ProfileParams::Enterprise {
                    project_number,
                    location,
                    endpoint_location,
                } && project_number@ == trim_spec(p@) && location@ == (if trim_spec(
                    args.location@,
                ).len() == 0 {
                    "global"@
                } else {
                    args.location@
                }) && endpoint_location@ == (if trim_spec(args.endpoint_location@).len() == 0 {
                    "global"@
                } else {
                    args.endpoint_location@
                })
            },
            None => r matches Err(e) && e matches Error::Validation(m) && m@
                == project_number_required_message(),
        }),
        profile is Personal ==> (r matches Ok(params) && params matches ProfileParams::Personal {
            user_hint,
        } && user_hint is None),
        profile is Workspace ==> (r matches Ok(params) && params matches ProfileParams::Workspace {
            domain,
            user_hint,
        } && domain is None && user_hint is None),
{
    match profile {
        ApiProfile::Enterprise => {
            let project_number = match &args.project_number {
                Some(p) => {
                    let trimmed = trim_string(p.as_str());
                    if trimmed.as_str().unicode_len() == 0 {
                        return Err(
                            Error::Validation(
                                String::from_str(
                                    "enterprise profile requires --project-number or the NBLM_PROJECT_NUMBER environment variable",
                                ),
                            ),
                        );
                    }
                    trimmed
                },
                None => {
                    return Err(
                        Error::Validation(
                            String::from_str(
                                "enterprise profile requires --project-number or the NBLM_PROJECT_NUMBER environment variable",
                            ),
                        ),
                    );
                },
            };
            let location = if trim_string(args.location.as_str()).as_str().unicode_len() == 0 {
                String::from_str("global")
            } else {
                args.location.clone()
            };
            let endpoint_location = if trim_string(args.endpoint_location.as_str()).as_str()
                .unicode_len() == 0 {
                String::from_str("global")
            } else {
                args.endpoint_location.clone()
            };
            Ok(ProfileParams::enterprise(project_number, location, endpoint_location))
        },
        ApiProfile::Personal => Ok(ProfileParams::personal(None)),
        ApiProfile::Workspace => Ok(ProfileParams::workspace(None, None)),
    }
}

/// Which concrete credential provider the global arguments select.
pub enum ProviderChoice {
    /// Delegate to the credential helper at this binary path.
    Gcloud { binary: String },
    /// A fixed token given on the command line or in the environment.
    Static { token: String },
    /// Read the named environment variable on every call.
    Env { key: String },
    /// The user-OAuth provider, built by the bootstrap.
    UserOauth,
}

/// Select the credential provider: experimental methods are gated; the
/// `env` method prefers an explicit token (`--token`, then the
/// environment-provided one) and otherwise reads `NBLM_ACCESS_TOKEN` on
/// every call; the helper path defaults to `gcloud` unless overridden.
pub fn choose_provider(args: &GlobalArgs, experiment_enabled: bool, helper_override: Option<
    String,
>) -> (r: Result<ProviderChoice, Error>)
    ensures
        (args.auth is UserOauth && !experiment_enabled) ==> (r matches Err(e) && e matches
            Error::Validation(m) && m@ == experimental_auth_message(args.auth)),
        (args.auth is UserOauth && experiment_enabled) ==> (r matches Ok(c) && c is UserOauth),
        args.auth is Gcloud ==> (r matches Ok(c) && c matches ProviderChoice::Gcloud { binary }
            && binary@ == (match helper_override {
            Some(ref h) => h@,
            None => "gcloud"@,
        })),
        args.auth is Env ==> (r matches Ok(c) && (match args.token {
            Some(ref t) => c matches ProviderChoice::Static { token } && token == t,
            None => match args.env_token {
                Some(ref t) => c matches ProviderChoice::Static { token } && token == t,
                None => c matches ProviderChoice::Env { key } && key@ == "NBLM_ACCESS_TOKEN"@,
            },
        })),
{
    match check_auth_method_allowed(args.auth, experiment_enabled) {
        Err(e) => {
            return Err(e);
        },
        Ok(_) => {},
    }
    match args.auth {
        AuthMethod::Gcloud => {
            let binary = match helper_override {
                Some(h) => h,
                None => String::from_str("gcloud"),
            };
            Ok(ProviderChoice::Gcloud { binary })
        },
        AuthMethod::Env => {
            match &args.token {
                Some(t) => Ok(ProviderChoice::Static { token: t.clone() }),
                None => match &args.env_token {
                    Some(t) => Ok(ProviderChoice::Static { token: t.clone() }),
                    None => Ok(
                        ProviderChoice::Env { key: String::from_str("NBLM_ACCESS_TOKEN") },
                    ),
                },
            }
        },
        AuthMethod::UserOauth => Ok(ProviderChoice::UserOauth),
    }
}

/// Orchestrates "is a refresh token already stored? if not, run the
/// interactive flow and persist the result" above the flow, the store and
/// the listener.
pub struct OAuthBootstrapper {
    pub store: TokenStore,
}

impl OAuthBootstrapper {
    /// A bootstrapper over a fresh store view; the surrounding process
    /// loads the durable store contents into it.
    pub fn new() -> (r: Result<OAuthBootstrapper, Error>)
        ensures
            r matches Ok(b) && b.store@ == Map::<Seq<char>, crate::store::TokensView>::empty(),
    {
        Ok(OAuthBootstrapper { store: TokenStore::new() })
    }

    /// The project number user-OAuth requires, from the global arguments.
    pub fn get_project_number(args: &GlobalArgs) -> (r: Result<String, Error>)
        ensures
            args.project_number matches Some(p) ==> (r matches Ok(p2) && p2 == p),
            args.project_number is None ==> (r matches Err(e) && e matches Error::Validation(m)
                && m@
                == "project-number is required for user-oauth authentication. Set --project-number or NBLM_PROJECT_NUMBER environment variable"@),
    {
        match &args.project_number {
            Some(p) => Ok(p.clone()),
            None => Err(
                Error::Validation(
                    String::from_str(
                        "project-number is required for user-oauth authentication. Set --project-number or NBLM_PROJECT_NUMBER environment variable",
                    ),
                ),
            ),
        }
    }

    /// Complete the environment-resolved client configuration into the
    /// flow configuration.
    pub fn create_oauth_config(client_config: OAuthClientConfig) -> (r: OAuthConfig)
        ensures
            r.auth_endpoint@ == "https://accounts.google.com/o/oauth2/v2/auth"@,
            r.token_endpoint@ == "https://oauth2.googleapis.com/token"@,
            r.client_id == client_config.client_id,
            r.client_secret == client_config.client_secret,
            r.redirect_uri == client_config.redirect_uri,
            r.audience == client_config.audience,
            r.scopes@.map_values(|s: String| s@) =~= seq![
                "https://www.googleapis.com/auth/cloud-platform"@,
                "https://www.googleapis.com/auth/drive.file"@,
            ],
    {
        client_config.into_oauth_config()
    }

    /// Decide this invocation's bootstrap step from what the store holds
    /// for the key: when disabled, never attempt the flow; when enabled,
    /// run the interactive flow exactly when nothing is stored.
    pub fn plan_for(&self, key: &TokenStoreKey, bootstrap_disabled: bool) -> (r:
        crate::bootstrap::BootstrapPlan)
        ensures
            bootstrap_disabled ==> r == crate::bootstrap::BootstrapPlan::SkipBootstrap,
            (!bootstrap_disabled && self.store@.contains_key(crate::store::storage_key_spec(key)))
                ==> r == crate::bootstrap::BootstrapPlan::UseStored,
            (!bootstrap_disabled && !self.store@.contains_key(
                crate::store::storage_key_spec(key),
            )) ==> r == crate::bootstrap::BootstrapPlan::RunInteractive,
    {
        let stored = self.store.load(key);
        crate::bootstrap::bootstrap_plan(stored.is_some(), bootstrap_disabled)
    }

    /// The token-store key of this invocation: the profile with the
    /// project number and endpoint location, and no user hint.
    pub fn build_store_key(args: &GlobalArgs, project_number: String) -> (r: TokenStoreKey)
        ensures
            r.profile == api_profile_of_arg(args.profile),
            opt_view(&r.project_number) == Some(project_number@),
            opt_view(&r.endpoint_location) == Some(args.endpoint_location@),
            r.user_hint is None,
    {
        TokenStoreKey {
            profile: ApiProfile::from(args.profile),
            project_number: Some(project_number),
            endpoint_location: Some(args.endpoint_location.clone()),
            user_hint: None,
        }
    }
}

} // verus!
