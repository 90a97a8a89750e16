//! The settings of the program that its decisions depend on.

use vstd::prelude::*;

use crate::text::{opt_text, texts};

verus! {

/// The settings that the program reads and, in part, changes.
#[derive(Debug, Clone)]
pub struct AppConfig {
    pub listen_host: String,
    pub hosts_ip: String,
    pub http_port: u16,
    pub https_port: u16,
    pub managed_prefer_ipv6: bool,
    pub autostart: bool,
    /// The edge node as it is written in the settings.
    pub edge_node: Option<String>,
    /// The edge node that takes the place of an automatic choice.
    pub edge_node_override: Option<String>,
    pub upstream: String,
    /// The domains that the hosts file is to point at the program.
    pub hosts_domains: Vec<String>,
    pub doh_endpoints: Vec<String>,
    pub certificate_domains: Vec<String>,
}

/// The settings, as values.
pub struct AppConfigValue {
    pub listen_host: Seq<char>,
    pub hosts_ip: Seq<char>,
    pub http_port: u16,
    pub https_port: u16,
    pub managed_prefer_ipv6: bool,
    pub autostart: bool,
    pub edge_node: Option<Seq<char>>,
    pub edge_node_override: Option<Seq<char>>,
    pub upstream: Seq<char>,
    pub hosts_domains: Seq<Seq<char>>,
    pub doh_endpoints: Seq<Seq<char>>,
    pub certificate_domains: Seq<Seq<char>>,
}

impl View for AppConfig {
    type V = AppConfigValue;

    open spec fn view(&self) -> AppConfigValue {
        AppConfigValue {
            listen_host: self.listen_host@,
            hosts_ip: self.hosts_ip@,
            http_port: self.http_port,
            https_port: self.https_port,
            managed_prefer_ipv6: self.managed_prefer_ipv6,
            autostart: self.autostart,
            edge_node: opt_text(self.edge_node),
            edge_node_override: opt_text(self.edge_node_override),
            upstream: self.upstream@,
            hosts_domains: texts(self.hosts_domains@),
            doh_endpoints: texts(self.doh_endpoints@),
            certificate_domains: texts(self.certificate_domains@),
        }
    }
}

impl AppConfig {
    /// Writes an edge node into the settings.
    pub fn set_edge_node(&mut self, node: Option<String>)
        ensures
            final(self)@ == (AppConfigValue { edge_node: opt_text(node), ..old(self)@ }),
    {
        self.edge_node = node;
    }

    /// Takes note of the edge node that takes the place of an automatic choice.
    pub fn set_edge_node_override(&mut self, node: Option<String>)
        ensures
            final(self)@ == (AppConfigValue { edge_node_override: opt_text(node), ..old(self)@ }),
    {
        self.edge_node_override = node;
    }
}

} // verus!
