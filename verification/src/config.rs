//! The configuration of the service, made once at startup from the settings
//! that the process was started with and handed on from there.

use vstd::prelude::*;
use crate::text::same_text;

verus! {

/// A setting that the process is started with.
#[derive(Clone, Copy, Debug, PartialEq, Eq, Structural)]
pub enum Setting {
    DatabaseUrl,
    BindAddr,
    UploadsPath,
    Debug,
    CorsOrigin,
}

/// The settings as the process finds them: each may be unset.
#[derive(Clone, Debug, PartialEq, Eq)]
pub struct Settings {
    pub database_url: Option<String>,
    pub bind_addr: Option<String>,
    pub uploads_path: Option<String>,
    pub debug: Option<String>,
    pub cors_origin: Option<String>,
}

/// Which origins may call the service from a browser.
#[derive(Clone, Debug, PartialEq, Eq)]
pub enum CorsPolicy {
    /// Any origin, without credentials: for development.
    AnyOrigin,
    /// One origin, with credentials.
    Origin(String),
}

/// The configuration of the service.
#[derive(Clone, Debug, PartialEq, Eq)]
pub struct Config {
    /// Where the store is reached.
    pub database_url: String,
    /// The address that the service listens on.
    pub bind_addr: String,
    /// The directory in which uploads are kept.
    pub uploads_path: String,
    pub cors: CorsPolicy,
}

/// The CORS policy as a mathematical value.
pub enum CorsPolicyView {
    AnyOrigin,
    Origin(Seq<char>),
}

/// The configuration as a mathematical value.
pub struct ConfigView {
    pub database_url: Seq<char>,
    pub bind_addr: Seq<char>,
    pub uploads_path: Seq<char>,
    pub cors: CorsPolicyView,
}

impl View for CorsPolicy {
    type V = CorsPolicyView;

    open spec fn view(&self) -> CorsPolicyView {
        match self {
            CorsPolicy::AnyOrigin => CorsPolicyView::AnyOrigin,
            CorsPolicy::Origin(origin) => CorsPolicyView::Origin(origin@),
        }
    }
}

impl View for Config {
    type V = ConfigView;

    open spec fn view(&self) -> ConfigView {
        ConfigView {
            database_url: self.database_url@,
            bind_addr: self.bind_addr@,
            uploads_path: self.uploads_path@,
            cors: self.cors@,
        }
    }
}

/// The configuration that the settings give, or the first setting that is
/// needed and unset. The database URL, the bind address, the uploads path
/// and the debug switch are always needed; the CORS origin is needed unless
/// the debug switch is exactly `true`.
pub open spec fn configured(settings: Settings) -> Result<ConfigView, Setting> {
    match (settings.database_url, settings.bind_addr, settings.uploads_path, settings.debug) {
        (None, _, _, _) => Err(Setting::DatabaseUrl),
        (_, None, _, _) => Err(Setting::BindAddr),
        (_, _, None, _) => Err(Setting::UploadsPath),
        (_, _, _, None) => Err(Setting::Debug),
        (Some(database_url), Some(bind_addr), Some(uploads_path), Some(debug)) => {
            if debug@ == "true"@ {
                Ok(
                    ConfigView {
                        database_url: database_url@,
                        bind_addr: bind_addr@,
                        uploads_path: uploads_path@,
                        cors: CorsPolicyView::AnyOrigin,
                    },
                )
            } else {
                match settings.cors_origin {
                    Some(origin) => Ok(
                        ConfigView {
                            database_url: database_url@,
                            bind_addr: bind_addr@,
                            uploads_path: uploads_path@,
                            cors: CorsPolicyView::Origin(origin@),
                        },
                    ),
                    None => Err(Setting::CorsOrigin),
                }
            }
        },
    }
}

/// What making the configuration gave, as a mathematical value.
pub open spec fn configured_view(result: Result<Config, Setting>) -> Result<ConfigView, Setting> {
    match result {
        Ok(config) => Ok(config@),
        Err(setting) => Err(setting),
    }
}

/// Makes the configuration from the settings.
pub fn configure(settings: Settings) -> (result: Result<Config, Setting>)
    ensures
        configured_view(result) == configured(settings),
{
    let database_url = match settings.database_url {
        Some(value) => value,
        None => {
            return Err(Setting::DatabaseUrl);
        },
    };
    let bind_addr = match settings.bind_addr {
        Some(value) => value,
        None => {
            return Err(Setting::BindAddr);
        },
    };
    let uploads_path = match settings.uploads_path {
        Some(value) => value,
        None => {
            return Err(Setting::UploadsPath);
        },
    };
    let debug = match settings.debug {
        Some(value) => value,
        None => {
            return Err(Setting::Debug);
        },
    };
    let cors = if same_text(debug.as_str(), "true") {
        CorsPolicy::AnyOrigin
    } else {
        match settings.cors_origin {
            Some(origin) => CorsPolicy::Origin(origin),
            None => {
                return Err(Setting::CorsOrigin);
            },
        }
    };
    Ok(Config { database_url, bind_addr, uploads_path, cors })
}

/// What a look at the uploads path found.
#[derive(Clone, Copy, Debug, PartialEq, Eq, Structural)]
pub enum UploadsProbe {
    /// The directory is there.
    Present,
    /// The path is there but leads nowhere: a broken link.
    Broken,
    /// The look itself failed.
    Unknown,
}

/// What to do about the uploads directory at startup.
#[derive(Clone, Copy, Debug, PartialEq, Eq, Structural)]
pub enum UploadsStep {
    /// Go on.
    Proceed,
    /// Create the directory, then go on.
    Create,
    /// Give up: the path is a broken link.
    GiveUp,
}

/// What to do about the uploads directory, given what a look at it found.
pub fn uploads_step(probe: UploadsProbe) -> (step: UploadsStep)
    ensures
        step == match probe {
            UploadsProbe::Present => UploadsStep::Proceed,
            UploadsProbe::Broken => UploadsStep::GiveUp,
            UploadsProbe::Unknown => UploadsStep::Create,
        },
{
    match probe {
        UploadsProbe::Present => UploadsStep::Proceed,
        UploadsProbe::Broken => UploadsStep::GiveUp,
        UploadsProbe::Unknown => UploadsStep::Create,
    }
}

} // verus!
