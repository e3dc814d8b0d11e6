//! The settings the rules read: who the requests are for, and how mail
//! goes out.

use vstd::prelude::*;

verus! {

/// The pause between two sends when the settings name none.
pub const DEFAULT_RATE_LIMIT_MS: u64 = 2000;

/// The request template used when the settings name none.
pub const DEFAULT_TEMPLATE: &'static str = "generic";

/// The person a request is made for.
#[derive(Debug, Clone, Default, PartialEq, Eq)]
pub struct Profile {
    pub first_name: String,
    pub last_name: String,
    pub email: String,
    pub address: String,
    pub city: String,
    pub state: String,
    pub zip_code: String,
    pub country: String,
    pub phone: String,
    pub date_of_birth: String,
}

impl Profile {
    /// A copy equal to this one.
    pub fn duplicate(&self) -> (r: Profile)
        ensures
            r == *self,
    {
        Profile {
            first_name: self.first_name.clone(),
            last_name: self.last_name.clone(),
            email: self.email.clone(),
            address: self.address.clone(),
            city: self.city.clone(),
            state: self.state.clone(),
            zip_code: self.zip_code.clone(),
            country: self.country.clone(),
            phone: self.phone.clone(),
            date_of_birth: self.date_of_birth.clone(),
        }
    }

    pub open spec fn full_name_view(&self) -> Seq<char> {
        self.first_name@ + seq![' '] + self.last_name@
    }

    /// First and last name, separated by a space.
    pub fn full_name(&self) -> (r: String)
        ensures
            r@ == self.full_name_view(),
    {
        let with_space = crate::text::concat(self.first_name.as_str(), " ");
        proof {
            reveal_strlit(" ");
        }
        crate::text::concat(with_space.as_str(), self.last_name.as_str())
    }
}

/// Why inbox settings cannot work.
#[derive(Debug, Clone, Copy, PartialEq, Eq, Structural)]
pub enum InboxSettingsProblem {
    /// No mail server is named.
    NoServer,
    /// The port is zero.
    NoPort,
    /// The address or the app password is missing.
    NoCredentials,
}

impl InboxSettingsProblem {
    /// The sentence a person reads.
    pub fn message(self) -> (r: &'static str)
        ensures
            self == InboxSettingsProblem::NoServer ==> r@ == "no mail server is set"@,
            self == InboxSettingsProblem::NoPort ==> r@ == "no port is set"@,
            self == InboxSettingsProblem::NoCredentials ==> r@
                == "the address and app password are both needed"@,
    {
        match self {
            InboxSettingsProblem::NoServer => "no mail server is set",
            InboxSettingsProblem::NoPort => "no port is set",
            InboxSettingsProblem::NoCredentials => "the address and app password are both needed",
        }
    }
}

/// What is wrong with inbox settings, checked in order: the server, the
/// port, then the address and password; nothing when they could work.
pub open spec fn inbox_settings_problem(
    server: Seq<char>,
    port: u16,
    email: Seq<char>,
    password: Seq<char>,
) -> Option<InboxSettingsProblem> {
    if crate::text::trim(server).len() == 0 {
        Some(InboxSettingsProblem::NoServer)
    } else if port == 0 {
        Some(InboxSettingsProblem::NoPort)
    } else if crate::text::trim(email).len() == 0 || password.len() == 0 {
        Some(InboxSettingsProblem::NoCredentials)
    } else {
        None
    }
}

/// Check inbox settings before anything touches the network.
pub fn check_inbox_settings(server: &str, port: u16, email: &str, password: &str) -> (r: Result<
    (),
    InboxSettingsProblem,
>)
    ensures
        match inbox_settings_problem(server@, port, email@, password@) {
            Some(p) => r == Err::<(), InboxSettingsProblem>(p),
            None => r is Ok,
        },
{
    if crate::text::trim_str(server).as_str().is_empty() {
        Err(InboxSettingsProblem::NoServer)
    } else if port == 0 {
        Err(InboxSettingsProblem::NoPort)
    } else if crate::text::trim_str(email).as_str().is_empty() || password.is_empty() {
        Err(InboxSettingsProblem::NoCredentials)
    } else {
        Ok(())
    }
}

/// How to reach an SMTP server.
#[derive(Debug, Clone, Default, PartialEq, Eq)]
pub struct SmtpConfig {
    pub host: String,
    pub port: u16,
    pub username: String,
    pub password: String,
    pub use_tls: bool,
}

impl SmtpConfig {
    /// A copy equal to this one.
    pub fn duplicate(&self) -> (r: SmtpConfig)
        ensures
            r == *self,
    {
        SmtpConfig {
            host: self.host.clone(),
            port: self.port,
            username: self.username.clone(),
            password: self.password.clone(),
            use_tls: self.use_tls,
        }
    }
}

/// A key for an HTTP mail provider.
#[derive(Debug, Clone, Default, PartialEq, Eq)]
pub struct ApiKeyConfig {
    pub api_key: String,
}

/// Everything needed to build a sender.
#[derive(Debug, Clone, Default, PartialEq, Eq)]
pub struct EmailConfig {
    /// `smtp`, `resend`, or `sendgrid`.
    pub provider: String,
    pub from: String,
    pub smtp: SmtpConfig,
    pub resend: ApiKeyConfig,
    pub sendgrid: ApiKeyConfig,
}

impl EmailConfig {
    /// A copy equal to this one.
    pub fn duplicate(&self) -> (r: EmailConfig)
        ensures
            r == *self,
    {
        EmailConfig {
            provider: self.provider.clone(),
            from: self.from.clone(),
            smtp: self.smtp.duplicate(),
            resend: ApiKeyConfig { api_key: self.resend.api_key.clone() },
            sendgrid: ApiKeyConfig { api_key: self.sendgrid.api_key.clone() },
        }
    }
}

/// Where a reply's words come from.
#[derive(Debug, Clone, Copy, PartialEq, Eq, Structural)]
pub enum Wording {
    /// The pre-written candidates, chosen between.
    Canned,
    /// A drafting model writes them.
    Generated,
}

/// The drafting model's settings.
#[derive(Debug, Clone, PartialEq, Eq)]
pub struct AiConfig {
    pub enabled: bool,
    pub endpoint: String,
    pub model: String,
    pub api_key: String,
    pub timeout_sec: u64,
    pub wording: Wording,
}

} // verus!
