//! What can go wrong with a kubeconfig.

use vstd::prelude::*;
use vstd::string::StringExecFns;

verus! {

/// `serde_yaml::Error`: why a YAML document does not parse.
#[verifier::external_type_specification]
#[verifier::external_body]
pub struct ExYamlError(serde_yaml::Error);

/// Why no configuration, or no cluster in it, could be had.
#[derive(Debug)]
pub enum ConfigError {
    /// The configuration names no current context.
    CurrentContextNotSet,
    /// Two documents that are merged say they are of different kinds.
    KindMismatch,
    /// Two documents that are merged are of different API versions.
    ApiVersionMismatch,
    /// The current context is not among the contexts.
    LoadContext { context_name: String },
    /// The cluster of the current context is not among the clusters.
    LoadClusterOfContext { cluster_name: String },
    /// The file could not be read.
    ReadFile { path: String, source: std::io::Error },
    /// The file holds a document that does not parse.
    ParseYaml(serde_yaml::Error),
    /// The file holds no document at all.
    EmptyKubeconfig(String),
}

/// `text` between quotation marks, with what cannot be printed written out,
/// as the `Debug` of `str` writes it.
pub uninterp spec fn quoted(text: Seq<char>) -> Seq<char>;

/// `Debug` of `str`: the text between quotation marks, with what cannot be
/// printed written out.
#[verifier::external_body]
fn quote(text: &str) -> (r: String)
    ensures
        r@ == quoted(text@),
{
    format!("{:?}", text)
}

/// `Display` of `std::io::Error`: what the error says of itself.
#[verifier::external_body]
fn io_error_text(error: &std::io::Error) -> (r: String) {
    format!("{}", error)
}

/// `Display` of `serde_yaml::Error`: what the error says of itself.
#[verifier::external_body]
fn yaml_error_text(error: &serde_yaml::Error) -> (r: String) {
    format!("{}", error)
}

impl ConfigError {
    /// What the error says, where `source` is what the error underneath it
    /// says of itself; only the errors of reading and of parsing have one
    /// underneath.
    pub open spec fn message_with(&self, source: Seq<char>) -> Seq<char> {
        match self {
            ConfigError::CurrentContextNotSet => "Failed to determine current context"@,
            ConfigError::KindMismatch => "Merging kubeconfig with mismatching kind"@,
            ConfigError::ApiVersionMismatch => "Merging kubeconfig with mismatching apiVersion"@,
            ConfigError::LoadContext { context_name } => "Unable to load current context: "@
                + context_name@,
            ConfigError::LoadClusterOfContext { cluster_name } =>
                "Unable to load cluster of context: "@ + cluster_name@,
            ConfigError::ReadFile { path, .. } => "Failed to read '"@ + quoted(path@) + "': "@
                + source,
            ConfigError::ParseYaml(_) => "Failed to parse Kubeconfig YAML: "@ + source,
            ConfigError::EmptyKubeconfig(path) =>
                "Failed to find a single YAML document in Kubeconfig: "@ + path@,
        }
    }

    /// What the error says, from the error and from what the error
    /// underneath it says of itself.
    pub fn message_from(&self, source: &str) -> (text: String)
        ensures
            text@ == self.message_with(source@),
    {
        match self {
            ConfigError::CurrentContextNotSet => "Failed to determine current context".to_owned(),
            ConfigError::KindMismatch => "Merging kubeconfig with mismatching kind".to_owned(),
            ConfigError::ApiVersionMismatch => {
                "Merging kubeconfig with mismatching apiVersion".to_owned()
            },
            ConfigError::LoadContext { context_name } => {
                let mut text = "Unable to load current context: ".to_owned();
                text.append(context_name.as_str());
                text
            },
            ConfigError::LoadClusterOfContext { cluster_name } => {
                let mut text = "Unable to load cluster of context: ".to_owned();
                text.append(cluster_name.as_str());
                text
            },
            ConfigError::ReadFile { path, .. } => {
                let mut text = "Failed to read '".to_owned();
                let path = quote(path.as_str());
                text.append(path.as_str());
                text.append("': ");
                text.append(source);
                text
            },
            ConfigError::ParseYaml(_) => {
                let mut text = "Failed to parse Kubeconfig YAML: ".to_owned();
                text.append(source);
                text
            },
            ConfigError::EmptyKubeconfig(path) => {
                let mut text = "Failed to find a single YAML document in Kubeconfig: ".to_owned();
                text.append(path.as_str());
                text
            },
        }
    }

    /// What the error says.
    pub fn message(&self) -> (text: String)
        ensures
            exists|source: Seq<char>| text@ == self.message_with(source),
    {
        let source = match self {
            ConfigError::ReadFile { source, .. } => io_error_text(source),
            ConfigError::ParseYaml(error) => yaml_error_text(error),
            _ => String::new(),
        };
        self.message_from(source.as_str())
    }
}

} // verus!
