//! Client configuration: credentials, environment selection and log level.
//!
//! Reading environment variables and configuration files is I/O and lives
//! with the surrounding application; it hands the raw values to
//! [`Config::from_values`], which makes every decision: parsing the boolean
//! settings, falling back to defaults, and picking the endpoints that match
//! the chosen environment.

use vstd::prelude::*;

verus! {

/// The production API endpoint.
pub open spec fn live_base_url() -> Seq<char> {
    "https://api.tastyworks.com"@
}

/// The demo (certification) API endpoint.
pub open spec fn demo_base_url() -> Seq<char> {
    "https://api.cert.tastyworks.com"@
}

/// The production websocket endpoint.
pub open spec fn live_websocket_url() -> Seq<char> {
    "wss://streamer.tastyworks.com"@
}

/// The demo (certification) websocket endpoint.
pub open spec fn demo_websocket_url() -> Seq<char> {
    "wss://streamer.cert.tastyworks.com"@
}

/// The client configuration.
#[derive(Debug)]
pub struct Config {
    /// The API username or email.
    pub username: String,
    /// The API password.
    pub password: String,
    /// Whether to use the demo (certification) environment.
    pub use_demo: bool,
    /// The log level, such as `INFO` or `DEBUG`.
    pub log_level: String,
    /// Whether to remember the login session.
    pub remember_me: bool,
    /// The base endpoint for API requests.
    pub base_url: String,
    /// The websocket endpoint.
    pub websocket_url: String,
}

impl Config {
    /// Whether this is the default configuration: empty credentials, the
    /// live environment, and informational logging.
    pub open spec fn is_default(&self) -> bool {
        &&& self.username@ == Seq::<char>::empty()
        &&& self.password@ == Seq::<char>::empty()
        &&& !self.use_demo
        &&& self.log_level@ == "INFO"@
        &&& !self.remember_me
        &&& self.base_url@ == live_base_url()
        &&& self.websocket_url@ == live_websocket_url()
    }

    /// Creates the default configuration. The surrounding application
    /// overrides it with whatever the environment provides, through
    /// [`Config::from_values`].
    pub fn new() -> (r: Config)
        ensures
            r.is_default(),
    {
        Config {
            username: String::new(),
            password: String::new(),
            use_demo: false,
            log_level: "INFO".to_owned(),
            remember_me: false,
            base_url: "https://api.tastyworks.com".to_owned(),
            websocket_url: "wss://streamer.tastyworks.com".to_owned(),
        }
    }

    /// Builds a configuration from raw setting values, absent where unset:
    /// the boolean settings are true exactly on the text `true`, the log
    /// level falls back to `INFO`, and the endpoints follow the chosen
    /// environment.
    pub fn from_values(
        username: String,
        password: String,
        use_demo: Option<String>,
        log_level: Option<String>,
        remember_me: Option<String>,
    ) -> (r: Config)
        ensures
            r.username == username,
            r.password == password,
            r.use_demo == (use_demo matches Some(s) && s@ == "true"@),
            r.log_level@ == (match log_level {
                Some(l) => l@,
                None => "INFO"@,
            }),
            r.remember_me == (remember_me matches Some(s) && s@ == "true"@),
            r.use_demo ==> r.base_url@ == demo_base_url() && r.websocket_url@
                == demo_websocket_url(),
            !r.use_demo ==> r.base_url@ == live_base_url() && r.websocket_url@
                == live_websocket_url(),
    {
        let true_text = "true".to_owned();
        let use_demo_flag = match &use_demo {
            Some(s) => *s == true_text,
            None => false,
        };
        let remember_flag = match &remember_me {
            Some(s) => *s == true_text,
            None => false,
        };
        let level = match log_level {
            Some(l) => l,
            None => "INFO".to_owned(),
        };
        Config {
            username,
            password,
            use_demo: use_demo_flag,
            log_level: level,
            remember_me: remember_flag,
            base_url: if use_demo_flag {
                "https://api.cert.tastyworks.com".to_owned()
            } else {
                "https://api.tastyworks.com".to_owned()
            },
            websocket_url: if use_demo_flag {
                "wss://streamer.cert.tastyworks.com".to_owned()
            } else {
                "wss://streamer.tastyworks.com".to_owned()
            },
        }
    }

    /// Returns whether the configuration carries usable credentials: both
    /// the username and the password are non-empty.
    pub fn has_valid_credentials(&self) -> (r: bool)
        ensures
            r == (self.username@.len() > 0 && self.password@.len() > 0),
    {
        !self.username.as_str().is_empty() && !self.password.as_str().is_empty()
    }
}

impl Default for Config {
    /// Returns the default configuration.
    fn default() -> (r: Config)
        ensures
            r.is_default(),
    {
        Config::new()
    }
}

} // verus!
