//! The configuration of the sender: made once when the process starts and
//! handed to every invocation.

use vstd::prelude::*;

verus! {

/// What the sender needs to know of itself and of the registry.
#[derive(Debug)]
pub struct Config {
    pub registry_url: String,
    pub client_id: String,
    pub client_secret: String,
    pub webhook_secret: String,
}

/// A variable that the configuration cannot do without.
#[derive(Debug, Clone, Copy, PartialEq, Eq, Structural)]
pub enum MissingVariable {
    ClientId,
    ClientSecret,
    WebhookSecret,
}

impl MissingVariable {
    /// The name of the variable in the environment.
    pub open spec fn name(self) -> Seq<char> {
        match self {
            MissingVariable::ClientId => "CLIENT_ID"@,
            MissingVariable::ClientSecret => "CLIENT_SECRET"@,
            MissingVariable::WebhookSecret => "WEBHOOK_SECRET"@,
        }
    }

    /// The name of the variable in the environment.
    pub fn as_str(&self) -> (name: &'static str)
        ensures
            name@ == self.name(),
    {
        match self {
            MissingVariable::ClientId => "CLIENT_ID",
            MissingVariable::ClientSecret => "CLIENT_SECRET",
            MissingVariable::WebhookSecret => "WEBHOOK_SECRET",
        }
    }
}

/// The first variable that is missing, in the order client identifier, client
/// secret, webhook secret.
pub open spec fn first_missing(
    client_id: Option<String>,
    client_secret: Option<String>,
    webhook_secret: Option<String>,
) -> Option<MissingVariable> {
    if client_id is None {
        Some(MissingVariable::ClientId)
    } else if client_secret is None {
        Some(MissingVariable::ClientSecret)
    } else if webhook_secret is None {
        Some(MissingVariable::WebhookSecret)
    } else {
        None
    }
}

/// Makes the configuration from what the environment holds. The sender's
/// identifier and secret and the webhook secret must be there; without a
/// registry URL the empty one is taken.
pub fn validate(
    registry_url: Option<String>,
    client_id: Option<String>,
    client_secret: Option<String>,
    webhook_secret: Option<String>,
) -> (result: Result<Config, MissingVariable>)
    ensures
        match result {
            Ok(config) => {
                &&& first_missing(client_id, client_secret, webhook_secret) is None
                &&& config.client_id == client_id->Some_0
                &&& config.client_secret == client_secret->Some_0
                &&& config.webhook_secret == webhook_secret->Some_0
                &&& match registry_url {
                    Some(url) => config.registry_url == url,
                    None => config.registry_url@.len() == 0,
                }
            },
            Err(missing) => first_missing(client_id, client_secret, webhook_secret) == Some(
                missing,
            ),
        },
{
    let client_id = match client_id {
        Some(value) => value,
        None => {
            return Err(MissingVariable::ClientId);
        },
    };
    let client_secret = match client_secret {
        Some(value) => value,
        None => {
            return Err(MissingVariable::ClientSecret);
        },
    };
    let webhook_secret = match webhook_secret {
        Some(value) => value,
        None => {
            return Err(MissingVariable::WebhookSecret);
        },
    };
    let registry_url = match registry_url {
        Some(value) => value,
        None => String::new(),
    };
    Ok(Config { registry_url, client_id, client_secret, webhook_secret })
}

} // verus!
