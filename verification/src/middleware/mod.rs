pub mod client_ip;
pub mod rate_limit;
