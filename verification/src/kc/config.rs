//! Where the provider is reached: the address its realms are asked at, and
//! the public address that the tokens it issues carry.

use vstd::prelude::*;
use vstd::string::*;

verus! {

/// The two addresses of a provider.
pub struct Endpoints {
    /// Where the provider is asked about its realms.
    pub address: Seq<char>,
    /// The address that every issuer of the provider's tokens begins with.
    pub public_url: Seq<char>,
}

/// The two addresses of a configuration in the making.
pub struct KeycloakConfigBuilder {
    address: String,
    public_url: String,
}

impl View for KeycloakConfigBuilder {
    type V = Endpoints;

    closed spec fn view(&self) -> Endpoints {
        Endpoints { address: self.address@, public_url: self.public_url@ }
    }
}

impl Default for KeycloakConfigBuilder {
    /// A provider on this machine, with the public address of a local
    /// installation.
    fn default() -> (r: Self)
        ensures
            r@.address == "http://localhost:8080"@,
            r@.public_url == "https://id.keycloak.local"@,
    {
        KeycloakConfigBuilder {
            address: String::from_str("http://localhost:8080"),
            public_url: String::from_str("https://id.keycloak.local"),
        }
    }
}

impl KeycloakConfigBuilder {
    /// Replaces the address at which the provider is asked.
    pub fn address(self, address: String) -> (r: Self)
        ensures
            r@.address == address@,
            r@.public_url == self@.public_url,
    {
        KeycloakConfigBuilder { address, public_url: self.public_url }
    }

    /// Replaces the public address.
    pub fn public_url(self, public_url: String) -> (r: Self)
        ensures
            r@.address == self@.address,
            r@.public_url == public_url@,
    {
        KeycloakConfigBuilder { address: self.address, public_url }
    }

    /// The configuration with the builder's two addresses.
    pub fn build(self) -> (r: KeycloakConfig)
        ensures
            r@ == self@,
    {
        KeycloakConfig {
            keycloak_tls: None,
            keycloak_port: None,
            keycloak_host: None,
            keycloak_address: Some(self.address),
            keycloak_public_url: self.public_url,
        }
    }
}

/// A provider's configuration.  Its address is always known: given, or made
/// from host, port and transport.
pub struct KeycloakConfig {
    keycloak_tls: Option<bool>,
    keycloak_port: Option<u16>,
    keycloak_host: Option<String>,
    keycloak_address: Option<String>,
    keycloak_public_url: String,
}

impl View for KeycloakConfig {
    type V = Endpoints;

    closed spec fn view(&self) -> Endpoints {
        Endpoints {
            address: match self.keycloak_address {
                Some(a) => a@,
                None => Seq::empty(),
            },
            public_url: self.keycloak_public_url@,
        }
    }
}

/// The address of a provider of which only host, port and transport are
/// known: `https` where the transport is secured and `http` where it is not
/// or not said, the host or else this machine, the port or else 8080.
pub open spec fn derived_address(
    tls: Option<bool>,
    port: Option<u16>,
    host: Option<Seq<char>>,
) -> Seq<char> {
    (if tls == Some(true) {
        "https"@
    } else {
        "http"@
    }) + "://"@ + (match host {
        Some(host) => host,
        None => "127.0.0.1"@,
    }) + ":"@ + crate::text::decimal(
        match port {
            Some(port) => port as nat,
            None => 8080,
        },
    ) + "/"@
}

impl KeycloakConfig {
    #[verifier::type_invariant]
    spec fn address_known(&self) -> bool {
        self.keycloak_address is Some
    }

    /// The configuration made of what is known of a provider.  Where no
    /// address is given, it is made from host, port and transport.
    pub fn from_parts(
        tls: Option<bool>,
        port: Option<u16>,
        host: Option<String>,
        address: Option<String>,
        public_url: String,
    ) -> (r: KeycloakConfig)
        ensures
            r@.public_url == public_url@,
            r@.address == match address {
                Some(address) => address@,
                None => derived_address(
                    tls,
                    port,
                    match host {
                        Some(host) => Some(host@),
                        None => None,
                    },
                ),
            },
    {
        let keycloak_address = match address {
            Some(address) => address,
            None => {
                let protocol = if let Some(true) = tls {
                    "https"
                } else {
                    "http"
                };
                let port_number: u16 = match port {
                    Some(port) => port,
                    None => 8080,
                };
                let derived = String::from_str(protocol).concat("://");
                let derived = match &host {
                    Some(host) => derived.concat(host.as_str()),
                    None => derived.concat("127.0.0.1"),
                };
                derived.concat(":").concat(crate::text::decimal_text(port_number).as_str()).concat(
                    "/",
                )
            },
        };
        KeycloakConfig {
            keycloak_tls: tls,
            keycloak_port: port,
            keycloak_host: host,
            keycloak_address: Some(keycloak_address),
            keycloak_public_url: public_url,
        }
    }

    /// The address at which the provider is asked about its realms.
    pub fn address(&self) -> (r: String)
        ensures
            r@ == self@.address,
    {
        proof {
            use_type_invariant(self);
        }
        match &self.keycloak_address {
            Some(a) => a.clone(),
            None => String::new(),
        }
    }

    /// The public address that the provider's tokens carry.
    pub fn public_url(&self) -> (r: String)
        ensures
            r@ == self@.public_url,
    {
        self.keycloak_public_url.clone()
    }

    /// A builder that starts from the defaults.
    pub fn builder() -> (r: KeycloakConfigBuilder)
        ensures
            r@.address == "http://localhost:8080"@,
            r@.public_url == "https://id.keycloak.local"@,
    {
        KeycloakConfigBuilder::default()
    }
}

} // verus!
