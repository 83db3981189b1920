//! Configuration of the executor service.
use vstd::prelude::*;
use std::collections::HashMap;

verus! {

/// How the executor service is set up.
#[derive(Debug, Clone)]
pub struct ExecutorConfig {
    /// PostgreSQL connection URL.
    pub database_url: String,
    /// Address the API server binds to.
    pub api_bind: String,
    /// Seconds between health checks.
    pub health_check_interval_secs: u64,
    /// Size of the event stream's buffer.
    pub event_buffer_size: usize,
    pub qdrant_url: Option<String>,
    pub ollama_url: Option<String>,
    pub mcp_servers: Vec<McpServerConfig>,
}

/// How to start one MCP server.
#[derive(Debug, Clone)]
pub struct McpServerConfig {
    pub name: String,
    pub command: String,
    pub args: Vec<String>,
    pub env: HashMap<String, String>,
}

/// The database URL used when none is given.
pub open spec fn default_database_url() -> Seq<char> {
    "postgresql://localhost/abcdodaf"@
}

/// `c` is the standard configuration with these URLs: the API on
/// 127.0.0.1:8080, health checks every 30 seconds, a buffer of 1000 events
/// and no MCP servers.
pub open spec fn standard_config(
    c: ExecutorConfig,
    database_url: Seq<char>,
    qdrant_url: Option<Seq<char>>,
    ollama_url: Option<Seq<char>>,
) -> bool {
    &&& c.database_url@ == database_url
    &&& c.api_bind@ == "127.0.0.1:8080"@
    &&& c.health_check_interval_secs == 30
    &&& c.event_buffer_size == 1000
    &&& crate::text::opt_view(c.qdrant_url) == qdrant_url
    &&& crate::text::opt_view(c.ollama_url) == ollama_url
    &&& c.mcp_servers@.len() == 0
}

impl ExecutorConfig {
    /// The standard configuration, taking the database, Qdrant and Ollama
    /// URLs from the values given (as read from `DATABASE_URL`, `QDRANT_URL`
    /// and `OLLAMA_URL`); with no database URL, the local one.
    pub fn from_environment(
        database_url: Option<String>,
        qdrant_url: Option<String>,
        ollama_url: Option<String>,
    ) -> (r: Self)
        ensures
            standard_config(
                r,
                match database_url {
                    Some(u) => u@,
                    None => default_database_url(),
                },
                crate::text::opt_view(qdrant_url),
                crate::text::opt_view(ollama_url),
            ),
    {
        let db = match database_url {
            Some(u) => u,
            None => crate::text::owned("postgresql://localhost/abcdodaf"),
        };
        ExecutorConfig {
            database_url: db,
            api_bind: crate::text::owned("127.0.0.1:8080"),
            health_check_interval_secs: 30,
            event_buffer_size: 1000,
            qdrant_url,
            ollama_url,
            mcp_servers: Vec::new(),
        }
    }
}

impl Default for ExecutorConfig {
    /// The standard configuration with none of the URLs set in the
    /// environment: the local database, no Qdrant, no Ollama.
    fn default() -> (r: Self)
        ensures
            standard_config(r, default_database_url(), None, None),
    {
        ExecutorConfig::from_environment(None, None, None)
    }
}

} // verus!
