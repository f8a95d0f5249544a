use vstd::prelude::*;

use crate::env::EnvVars;
use crate::parse::{bool_of, parse_bool, parse_u64, u64_of};
use crate::tags::{parse_dcb_metadata_tags, split_on, strings_view, TAG_SEPARATOR};

verus! {

/// Token for the storage service; unset by default.
pub const GCLOUD_OAUTH_TOKEN: &'static str = "GCLOUD_OAUTH_TOKEN";

/// Destination bucket.
pub const GCLOUD_BUCKET_NAME: &'static str = "GCLOUD_BUCKET_NAME";

/// Destination folder inside the bucket.
pub const GCLOUD_FOLDER: &'static str = "GCLOUD_FOLDER";

/// Upload interval in seconds.
pub const GCLOUD_UPLOAD_INTERVAL: &'static str = "GCLOUD_UPLOAD_INTERVAL";

/// Whether a file is removed once it is uploaded.
pub const GCLOUD_REMOVE_ON_UPLOAD: &'static str = "GCLOUD_REMOVE_ON_UPLOAD";

/// Endpoint of the data collection backend; unset by default.
pub const DCB_URL: &'static str = "DCB_URL";

/// Comma-separated tags for the data collection backend.
pub const DCB_METADATA_TAGS: &'static str = "DCB_METADATA_TAGS";

/// Bucket used where none is set.
pub const DEFAULT_BUCKET_NAME: &'static str = "tick_data";

/// The bucket's root.
pub const DEFAULT_FOLDER: &'static str = "";

/// One hour.
pub const DEFAULT_INTERVAL: u64 = 3600;

/// Uploaded files are removed unless told otherwise.
pub const DEFAULT_REMOVE: bool = true;

/// No raw tags; it splits into one empty tag.
pub const DEFAULT_METADATA_TAGS: &'static str = "";

/// Settings of the upload plugin, read once at start-up.
#[derive(Debug, PartialEq, Eq)]
pub struct GStorageConfig {
    /// google cloud oauth token
    pub oauth_token: Option<String>,
    /// name of the bucket, i.e. gs://tick-data
    pub bucket_name: String,
    /// folder name in bucket: gs://tick-data/{folder}
    pub folder: String,
    /// upload interval in seconds
    pub interval: u64,
    /// remove a file once it is uploaded
    pub remove: bool,
    /// data collection backend
    pub dcb_url: Option<String>,
    /// tags to insert in data uploaded to the data collection backend
    pub dcb_metadata_tags: Vec<String>,
}

/// The content of a `GStorageConfig`.
pub struct GStorageConfigView {
    pub oauth_token: Option<Seq<char>>,
    pub bucket_name: Seq<char>,
    pub folder: Seq<char>,
    pub interval: u64,
    pub remove: bool,
    pub dcb_url: Option<Seq<char>>,
    pub dcb_metadata_tags: Seq<Seq<char>>,
}

/// Why a configuration could not be built.
#[derive(Debug, PartialEq, Eq)]
pub enum ConfigError {
    /// The variable `key` is set to `value`, which is not of its type.
    ParseError { key: String, value: String },
}

/// The content of a `ConfigError`.
pub enum ConfigErrorView {
    ParseError { key: Seq<char>, value: Seq<char> },
}

pub open spec fn opt_view(o: Option<String>) -> Option<Seq<char>> {
    match o {
        Some(s) => Some(s@),
        None => None,
    }
}

impl View for GStorageConfig {
    type V = GStorageConfigView;

    open spec fn view(&self) -> GStorageConfigView {
        GStorageConfigView {
            oauth_token: opt_view(self.oauth_token),
            bucket_name: self.bucket_name@,
            folder: self.folder@,
            interval: self.interval,
            remove: self.remove,
            dcb_url: opt_view(self.dcb_url),
            dcb_metadata_tags: strings_view(self.dcb_metadata_tags@),
        }
    }
}

impl View for ConfigError {
    type V = ConfigErrorView;

    open spec fn view(&self) -> ConfigErrorView {
        match self {
            ConfigError::ParseError { key, value } => ConfigErrorView::ParseError {
                key: key@,
                value: value@,
            },
        }
    }
}

impl ConfigError {
    /// A description for the operator: the variable and the value that
    /// could not be read.
    pub fn message(&self) -> (r: String)
        ensures
            match self@ {
                ConfigErrorView::ParseError { key, value } => r@ == "cannot parse environment variable "@
                    + key + "=\""@ + value + "\""@,
            },
    {
        match self {
            ConfigError::ParseError { key, value } => {
                let mut m = String::from_str("cannot parse environment variable ");
                m.append(key.as_str());
                m.append("=\"");
                m.append(value.as_str());
                m.append("\"");
                m
            },
        }
    }
}

/// A result whose error is a `ConfigError`, with the error seen by content.
pub open spec fn result_view<T>(r: Result<T, ConfigError>) -> Result<T, ConfigErrorView> {
    match r {
        Ok(v) => Ok(v),
        Err(e) => Err(e@),
    }
}

/// A configuration result seen by content.
pub open spec fn config_result_view(r: Result<GStorageConfig, ConfigError>) -> Result<
    GStorageConfigView,
    ConfigErrorView,
> {
    match r {
        Ok(c) => Ok(c@),
        Err(e) => Err(e@),
    }
}

/// The value of `key`, if it is set.
pub open spec fn lookup(env: Map<Seq<char>, Seq<char>>, key: Seq<char>) -> Option<Seq<char>> {
    if env.contains_key(key) {
        Some(env[key])
    } else {
        None
    }
}

/// The value of `key` as it stands, empty included, or `default` where unset.
pub open spec fn string_or(env: Map<Seq<char>, Seq<char>>, key: Seq<char>, default: Seq<char>) -> Seq<
    char,
> {
    if env.contains_key(key) {
        env[key]
    } else {
        default
    }
}

/// `default` where `key` is unset (never parsed); else the parsed value, or
/// an error that names the key and its raw value.
pub open spec fn u64_or(env: Map<Seq<char>, Seq<char>>, key: Seq<char>, default: u64) -> Result<
    u64,
    ConfigErrorView,
> {
    if !env.contains_key(key) {
        Ok(default)
    } else {
        match u64_of(env[key]) {
            Some(n) => Ok(n),
            None => Err(ConfigErrorView::ParseError { key, value: env[key] }),
        }
    }
}

/// As `u64_or`, for a boolean.
pub open spec fn bool_or(env: Map<Seq<char>, Seq<char>>, key: Seq<char>, default: bool) -> Result<
    bool,
    ConfigErrorView,
> {
    if !env.contains_key(key) {
        Ok(default)
    } else {
        match bool_of(env[key]) {
            Some(b) => Ok(b),
            None => Err(ConfigErrorView::ParseError { key, value: env[key] }),
        }
    }
}

/// The configuration that `env` describes: the interval is read before the
/// removal flag, so where both are malformed the interval's error is given.
pub open spec fn load_spec(env: Map<Seq<char>, Seq<char>>) -> Result<
    GStorageConfigView,
    ConfigErrorView,
> {
    match u64_or(env, GCLOUD_UPLOAD_INTERVAL@, DEFAULT_INTERVAL) {
        Err(e) => Err(e),
        Ok(interval) => match bool_or(env, GCLOUD_REMOVE_ON_UPLOAD@, DEFAULT_REMOVE) {
            Err(e) => Err(e),
            Ok(remove) => Ok(
                GStorageConfigView {
                    oauth_token: lookup(env, GCLOUD_OAUTH_TOKEN@),
                    bucket_name: string_or(env, GCLOUD_BUCKET_NAME@, DEFAULT_BUCKET_NAME@),
                    folder: string_or(env, GCLOUD_FOLDER@, DEFAULT_FOLDER@),
                    interval,
                    remove,
                    dcb_url: lookup(env, DCB_URL@),
                    dcb_metadata_tags: split_on(
                        string_or(env, DCB_METADATA_TAGS@, DEFAULT_METADATA_TAGS@),
                        TAG_SEPARATOR,
                    ),
                },
            ),
        },
    }
}

/// The value of `key`, or `default` where it is unset.
pub fn string_with_default(env: &EnvVars, key: &str, default: &str) -> (r: String)
    ensures
        r@ == string_or(env@, key@, default@),
{
    match env.get(key) {
        Some(v) => v.clone(),
        None => String::from_str(default),
    }
}

/// The value of `key`, or `None` where it is unset.
pub fn optional_string(env: &EnvVars, key: &str) -> (r: Option<String>)
    ensures
        opt_view(r) == lookup(env@, key@),
{
    match env.get(key) {
        Some(v) => Some(v.clone()),
        None => None,
    }
}

/// The value of `key` read as an unsigned integer, or `default` where it is
/// unset.
pub fn u64_with_default(env: &EnvVars, key: &str, default: u64) -> (r: Result<u64, ConfigError>)
    ensures
        result_view(r) == u64_or(env@, key@, default),
{
    match env.get(key) {
        None => Ok(default),
        Some(v) => match parse_u64(v.as_str()) {
            Some(n) => Ok(n),
            None => Err(ConfigError::ParseError { key: String::from_str(key), value: v.clone() }),
        },
    }
}

/// The value of `key` read as a boolean, or `default` where it is unset.
pub fn bool_with_default(env: &EnvVars, key: &str, default: bool) -> (r: Result<bool, ConfigError>)
    ensures
        result_view(r) == bool_or(env@, key@, default),
{
    match env.get(key) {
        None => Ok(default),
        Some(v) => match parse_bool(v.as_str()) {
            Some(b) => Ok(b),
            None => Err(ConfigError::ParseError { key: String::from_str(key), value: v.clone() }),
        },
    }
}

impl GStorageConfig {
    /// Builds the configuration from the variables of `env`, filling in the
    /// defaults of those that are unset.
    pub fn new(env: &EnvVars) -> (r: Result<GStorageConfig, ConfigError>)
        ensures
            config_result_view(r) == load_spec(env@),
    {
        let interval = match u64_with_default(env, GCLOUD_UPLOAD_INTERVAL, DEFAULT_INTERVAL) {
            Ok(n) => n,
            Err(e) => {
                return Err(e);
            },
        };
        let remove = match bool_with_default(env, GCLOUD_REMOVE_ON_UPLOAD, DEFAULT_REMOVE) {
            Ok(b) => b,
            Err(e) => {
                return Err(e);
            },
        };
        let raw_tags = string_with_default(env, DCB_METADATA_TAGS, DEFAULT_METADATA_TAGS);
        Ok(
            GStorageConfig {
                oauth_token: optional_string(env, GCLOUD_OAUTH_TOKEN),
                bucket_name: string_with_default(env, GCLOUD_BUCKET_NAME, DEFAULT_BUCKET_NAME),
                folder: string_with_default(env, GCLOUD_FOLDER, DEFAULT_FOLDER),
                interval,
                remove,
                dcb_url: optional_string(env, DCB_URL),
                dcb_metadata_tags: parse_dcb_metadata_tags(raw_tags.as_str()),
            },
        )
    }
}

} // verus!
