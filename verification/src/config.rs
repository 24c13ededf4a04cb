//! What the configuration of a client or a server has in common: the error
//! of loading or saving one, and the description of the application that it
//! gives.

use crate::string::UAString;
use vstd::prelude::*;

verus! {

/// `std::io::Error`, of which nothing is known here but that it is a value.
#[verifier::external_type_specification]
#[verifier::external_body]
pub struct ExIoError(std::io::Error);

/// `serde_yaml::Error`, of which nothing is known here but that it is a
/// value.
#[verifier::external_type_specification]
#[verifier::external_body]
pub struct ExYamlError(serde_yaml::Error);

/// The error of saving or loading a configuration.
#[derive(Debug)]
pub enum ConfigError {
    /// The configuration is not valid. Holds what is wrong with it.
    ConfigInvalid(Vec<String>),
    /// Reading or writing the file failed.
    IO(std::io::Error),
    /// The configuration could not be written as YAML or read from it.
    Yaml(serde_yaml::Error),
}

impl From<std::io::Error> for ConfigError {
    fn from(value: std::io::Error) -> (e: ConfigError) {
        ConfigError::IO(value)
    }
}

impl vstd::std_specs::convert::FromSpecImpl<std::io::Error> for ConfigError {
    open spec fn obeys_from_spec() -> bool {
        true
    }

    open spec fn from_spec(value: std::io::Error) -> ConfigError {
        ConfigError::IO(value)
    }
}

impl From<serde_yaml::Error> for ConfigError {
    fn from(value: serde_yaml::Error) -> (e: ConfigError) {
        ConfigError::Yaml(value)
    }
}

impl vstd::std_specs::convert::FromSpecImpl<serde_yaml::Error> for ConfigError {
    open spec fn obeys_from_spec() -> bool {
        true
    }

    open spec fn from_spec(value: serde_yaml::Error) -> ConfigError {
        ConfigError::Yaml(value)
    }
}

/// The kind of an application.
#[derive(Clone, Copy, Debug, PartialEq, Eq, Structural)]
pub enum ApplicationType {
    Server,
    Client,
    ClientAndServer,
    DiscoveryServer,
}

/// A text with the locale it is written in.
#[derive(Debug, PartialEq, Eq)]
pub struct LocalizedText {
    pub locale: UAString,
    pub text: UAString,
}

impl Clone for LocalizedText {
    fn clone(&self) -> (copy: LocalizedText)
        ensures
            copy.locale@ == self.locale@,
            copy.text@ == self.text@,
    {
        LocalizedText { locale: self.locale.clone(), text: self.text.clone() }
    }
}

impl LocalizedText {
    /// The text `text` in the locale `locale`.
    pub fn new(locale: &str, text: &str) -> (r: LocalizedText)
        ensures
            r.locale@ == Some(locale@),
            r.text@ == Some(text@),
    {
        LocalizedText {
            locale: UAString { value: Some(locale.to_owned()) },
            text: UAString { value: Some(text.to_owned()) },
        }
    }
}

/// What an application tells of itself to those that look for it.
#[derive(Debug, PartialEq, Eq)]
pub struct ApplicationDescription {
    pub application_uri: UAString,
    pub product_uri: UAString,
    pub application_name: LocalizedText,
    pub application_type: ApplicationType,
    pub gateway_server_uri: UAString,
    pub discovery_profile_uri: UAString,
    pub discovery_urls: Option<Vec<UAString>>,
}

/// The texts of `urls`, in order.
pub open spec fn texts_of(urls: Seq<UAString>) -> Seq<Option<Seq<char>>> {
    Seq::new(urls.len(), |i: int| urls[i]@)
}

/// A copy of `urls`.
fn copy_of(urls: &Vec<UAString>) -> (copy: Vec<UAString>)
    ensures
        texts_of(copy@) == texts_of(urls@),
{
    let mut copy: Vec<UAString> = Vec::new();
    let mut i: usize = 0;
    while i < urls.len()
        invariant
            i <= urls@.len(),
            copy@.len() == i,
            forall|k: int| 0 <= k < i ==> copy@[k]@ == urls@[k]@,
        decreases urls@.len() - i,
    {
        copy.push(urls[i].clone());
        i += 1;
    }
    assert(texts_of(copy@) =~= texts_of(urls@));
    copy
}

impl Clone for ApplicationDescription {
    fn clone(&self) -> (copy: ApplicationDescription)
        ensures
            copy.application_uri@ == self.application_uri@,
            copy.product_uri@ == self.product_uri@,
            copy.application_name.locale@ == self.application_name.locale@,
            copy.application_name.text@ == self.application_name.text@,
            copy.application_type == self.application_type,
            copy.gateway_server_uri@ == self.gateway_server_uri@,
            copy.discovery_profile_uri@ == self.discovery_profile_uri@,
            match (copy.discovery_urls, self.discovery_urls) {
                (Some(a), Some(b)) => texts_of(a@) == texts_of(b@),
                (None, None) => true,
                _ => false,
            },
    {
        ApplicationDescription {
            application_uri: self.application_uri.clone(),
            product_uri: self.product_uri.clone(),
            application_name: self.application_name.clone(),
            application_type: self.application_type,
            gateway_server_uri: self.gateway_server_uri.clone(),
            discovery_profile_uri: self.discovery_profile_uri.clone(),
            discovery_urls: match &self.discovery_urls {
                Some(urls) => Some(copy_of(urls)),
                None => None,
            },
        }
    }
}

/// A configuration of a client or of a server.
pub trait Config {
    /// Whether the configuration is valid; if not, what is wrong with it.
    fn validate(&self) -> Result<(), Vec<String>>;

    /// The name of the application.
    fn application_name(&self) -> UAString;

    /// The URI of the application.
    fn application_uri(&self) -> UAString;

    /// The URI of the product.
    fn product_uri(&self) -> UAString;

    /// The kind of the application.
    fn application_type(&self) -> ApplicationType;

    /// The discovery URLs that the application is registered with.
    fn discovery_urls(&self) -> (urls: Option<Vec<UAString>>)
        default_ensures
            urls is None,
    {
        None
    }

    /// The description of the application: its URIs, kind and discovery
    /// URLs as the configuration gives them, its name in no locale, where an
    /// absent name becomes the empty one, and neither a gateway server nor a
    /// discovery profile.
    fn application_description(&self) -> (description: ApplicationDescription)
        ensures
            call_ensures(Self::application_uri, (self,), description.application_uri),
            call_ensures(Self::product_uri, (self,), description.product_uri),
            call_ensures(Self::application_type, (self,), description.application_type),
            call_ensures(Self::discovery_urls, (self,), description.discovery_urls),
            description.application_name.locale@ == Some(Seq::<char>::empty()),
            exists|name: UAString|
                {
                    &&& #[trigger] call_ensures(Self::application_name, (self,), name)
                    &&& description.application_name.text@ == Some(
                        match name@ {
                            Some(chars) => chars,
                            None => Seq::<char>::empty(),
                        },
                    )
                },
            description.gateway_server_uri@ is None,
            description.discovery_profile_uri@ is None,
    {
        let name = self.application_name();
        proof {
            reveal_strlit("");
        }
        assert(""@ =~= Seq::<char>::empty());
        ApplicationDescription {
            application_uri: self.application_uri(),
            application_name: LocalizedText::new("", name.as_ref()),
            application_type: self.application_type(),
            product_uri: self.product_uri(),
            gateway_server_uri: UAString::null(),
            discovery_profile_uri: UAString::null(),
            discovery_urls: self.discovery_urls(),
        }
    }
}

/// The outcome of validating a configuration, as the outcome of saving or
/// loading it: what is wrong with the configuration becomes the error.
pub fn validation_outcome(validated: Result<(), Vec<String>>) -> (r: Result<(), ConfigError>)
    ensures
        match validated {
            Ok(_) => r is Ok,
            Err(errors) => r matches Err(ConfigError::ConfigInvalid(e)) && e == errors,
        },
{
    match validated {
        Ok(_) => Ok(()),
        Err(errors) => Err(ConfigError::ConfigInvalid(errors)),
    }
}

} // verus!
