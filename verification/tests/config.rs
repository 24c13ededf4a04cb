use opcua_node_id::config::{validation_outcome, ApplicationType, Config, ConfigError};
use opcua_node_id::UAString;

#[test]
fn validation_errors_become_the_error() {
    assert!(validation_outcome(Ok(())).is_ok());
    match validation_outcome(Err(vec!["a".to_string(), "b".to_string()])) {
        Err(ConfigError::ConfigInvalid(errors)) => assert_eq!(errors, vec!["a", "b"]),
        _ => panic!("the errors of the validation were expected"),
    }
}

#[test]
fn errors_of_io_and_yaml_are_kept() {
    let io = std::io::Error::new(std::io::ErrorKind::NotFound, "gone");
    assert!(matches!(ConfigError::from(io), ConfigError::IO(e) if e.kind() == std::io::ErrorKind::NotFound));
    let yaml = serde_yaml::from_str::<u8>("[").unwrap_err();
    let text = yaml.to_string();
    assert!(matches!(ConfigError::from(yaml), ConfigError::Yaml(e) if e.to_string() == text));
}

struct Named {
    name: UAString,
    urls: Option<Vec<UAString>>,
}

impl Config for Named {
    fn validate(&self) -> Result<(), Vec<String>> {
        Ok(())
    }

    fn application_name(&self) -> UAString {
        self.name.clone()
    }

    fn application_uri(&self) -> UAString {
        UAString::from("urn:app")
    }

    fn product_uri(&self) -> UAString {
        UAString::from("urn:product")
    }

    fn application_type(&self) -> ApplicationType {
        ApplicationType::ClientAndServer
    }

    fn discovery_urls(&self) -> Option<Vec<UAString>> {
        self.urls.clone()
    }
}

struct Unnamed;

impl Config for Unnamed {
    fn validate(&self) -> Result<(), Vec<String>> {
        Err(vec!["no name".to_string()])
    }

    fn application_name(&self) -> UAString {
        UAString::null()
    }

    fn application_uri(&self) -> UAString {
        UAString::null()
    }

    fn product_uri(&self) -> UAString {
        UAString::null()
    }

    fn application_type(&self) -> ApplicationType {
        ApplicationType::Server
    }
}

#[test]
fn application_description_of_a_configuration() {
    let config = Named {
        name: UAString::from("app"),
        urls: Some(vec![UAString::from("opc.tcp://localhost:4840/")]),
    };
    let description = config.application_description();
    assert_eq!(description.application_uri, UAString::from("urn:app"));
    assert_eq!(description.product_uri, UAString::from("urn:product"));
    assert_eq!(description.application_name.locale, UAString::from(""));
    assert_eq!(description.application_name.text, UAString::from("app"));
    assert_eq!(description.application_type, ApplicationType::ClientAndServer);
    assert_eq!(description.gateway_server_uri, UAString::null());
    assert_eq!(description.discovery_profile_uri, UAString::null());
    assert_eq!(
        description.discovery_urls,
        Some(vec![UAString::from("opc.tcp://localhost:4840/")])
    );
}

#[test]
fn application_description_without_name_and_urls() {
    let description = Unnamed.application_description();
    assert_eq!(description.application_uri, UAString::null());
    assert_eq!(description.application_name.text, UAString::from(""));
    assert_eq!(description.application_type, ApplicationType::Server);
    assert_eq!(description.discovery_urls, None);
    assert!(validation_outcome(Unnamed.validate()).is_err());
}
