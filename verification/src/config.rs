//! The configuration that the application publishes about itself.

use vstd::prelude::*;

verus! {

/// The type of every published configuration.
pub open spec fn json_config_type() -> Seq<char> {
    "json"@
}

/// Whose configuration it is, and of what type.
#[derive(Debug, PartialEq, Eq)]
pub struct ConfigMetadata {
    /// Name of the application.
    pub xapp_name: String,
    /// Name of the configuration type.
    pub config_type: String,
}

/// Mathematical value of [`ConfigMetadata`].
pub struct MetadataView {
    pub xapp_name: Seq<char>,
    pub config_type: Seq<char>,
}

impl View for ConfigMetadata {
    type V = MetadataView;

    open spec fn view(&self) -> MetadataView {
        MetadataView { xapp_name: self.xapp_name@, config_type: self.config_type@ }
    }
}

impl Clone for ConfigMetadata {
    fn clone(&self) -> (copy: ConfigMetadata)
        ensures
            copy@ == self@,
    {
        ConfigMetadata {
            xapp_name: self.xapp_name.clone(),
            config_type: self.config_type.clone(),
        }
    }
}

/// A JSON document, parsed.
#[verifier::external_type_specification]
#[verifier::external_body]
pub struct ExJsonValue(serde_json::Value);

/// Why a text is no JSON document.
#[verifier::external_type_specification]
#[verifier::external_body]
pub struct ExJsonError(serde_json::Error);

/// A configuration with its metadata.
#[derive(Debug)]
pub struct XAppConfig {
    pub metadata: Box<ConfigMetadata>,
    /// The configuration itself, as a JSON document.
    pub config: serde_json::Value,
}

/// Why no configuration could be made of a text.
#[derive(Debug)]
pub enum ConfigError {
    /// The text is no JSON document.
    InvalidJson(serde_json::Error),
}

/// The JSON document that `text` holds, if it holds one.
pub uninterp spec fn json_document(text: Seq<char>) -> Option<serde_json::Value>;

/// Calls `serde_json::from_str` for a `serde_json::Value`. The parser reads
/// nothing but the text, so the same text gives the same answer: the
/// document that the text holds, or an error where it holds none.
#[verifier::external_body]
fn parse_json(text: &str) -> (parsed: Result<serde_json::Value, serde_json::Error>)
    ensures
        match parsed {
            Ok(document) => json_document(text@) == Some(document),
            Err(_) => json_document(text@) is None,
        },
{
    serde_json::from_str::<serde_json::Value>(text)
}

/// The configuration of the application named `app_name`, made of what
/// parsing its configuration text gave.
pub fn config_from_parsed(
    app_name: &str,
    parsed: Result<serde_json::Value, serde_json::Error>,
) -> (config: Result<XAppConfig, ConfigError>)
    ensures
        match parsed {
            Ok(document) => config is Ok && config->Ok_0.config == document
                && config->Ok_0.metadata@ == (MetadataView {
                xapp_name: app_name@,
                config_type: json_config_type(),
            }),
            Err(error) => config is Err && config->Err_0 == ConfigError::InvalidJson(error),
        },
{
    match parsed {
        Ok(document) => {
            let metadata = ConfigMetadata {
                xapp_name: app_name.to_owned(),
                config_type: "json".to_owned(),
            };
            Ok(XAppConfig { metadata: Box::new(metadata), config: document })
        },
        Err(error) => Err(ConfigError::InvalidJson(error)),
    }
}

/// The configuration of the application named `app_name`, whose
/// configuration text is `text`: a configuration if, and only if, the text
/// holds a JSON document.
pub fn get_config_data(app_name: &str, text: &str) -> (config: Result<XAppConfig, ConfigError>)
    ensures
        match json_document(text@) {
            Some(document) => config is Ok && config->Ok_0.config == document
                && config->Ok_0.metadata@ == (MetadataView {
                xapp_name: app_name@,
                config_type: json_config_type(),
            }),
            None => config is Err,
        },
{
    config_from_parsed(app_name, parse_json(text))
}

} // verus!
